//! The extensions and flags an instance is created with.
use vstd::prelude::*;
use vstd::string::StringSliceAdditionalSpecFns;
use crate::device::physical_device::name_views;
use crate::vkraw::INSTANCE_CREATE_ENUMERATE_PORTABILITY_KHR;

verus! {

/// The name of the `VK_EXT_debug_utils` extension.
pub open spec fn debug_utils_name() -> Seq<u8> {
    "VK_EXT_debug_utils".spec_bytes()
}

/// The name of the `VK_KHR_portability_enumeration` extension.
pub open spec fn portability_enumeration_name() -> Seq<u8> {
    "VK_KHR_portability_enumeration".spec_bytes()
}

/// `ash::vk::EXT_DEBUG_UTILS_NAME`, without its terminating nul: the bytes of
/// `VK_EXT_debug_utils`.
#[verifier::external_body]
fn debug_utils_extension() -> (r: Vec<u8>)
    ensures
        r@ == debug_utils_name(),
{
    ash::vk::EXT_DEBUG_UTILS_NAME.to_bytes().to_vec()
}

/// `ash::vk::KHR_PORTABILITY_ENUMERATION_NAME`, without its terminating nul:
/// the bytes of `VK_KHR_portability_enumeration`.
#[verifier::external_body]
fn portability_enumeration_extension() -> (r: Vec<u8>)
    ensures
        r@ == portability_enumeration_name(),
{
    ash::vk::KHR_PORTABILITY_ENUMERATION_NAME.to_bytes().to_vec()
}

/// The instance extensions, in order: debug utils in debug builds, portability
/// enumeration on Apple platforms, then those the display needs.
pub open spec fn instance_extensions_spec(debug: bool, portability: bool, display: Seq<Seq<u8>>) -> Seq<Seq<u8>> {
    (if debug {
        seq![debug_utils_name()]
    } else {
        Seq::empty()
    }) + (if portability {
        seq![portability_enumeration_name()]
    } else {
        Seq::empty()
    }) + display
}

/// The extensions to create an instance with: debug utils when `debug`
/// (debug builds), portability enumeration when `portability` (Apple
/// platforms), then `display_extensions`, those the window system requires.
pub fn instance_extensions(debug: bool, portability: bool, display_extensions: &Vec<Vec<u8>>) -> (r: Vec<Vec<u8>>)
    ensures
        name_views(r@) == instance_extensions_spec(debug, portability, name_views(display_extensions@)),
{
    let mut r: Vec<Vec<u8>> = Vec::new();
    if debug {
        r.push(debug_utils_extension());
    }
    if portability {
        r.push(portability_enumeration_extension());
    }
    let ghost head = name_views(r@);
    assert(head =~= (if debug {
        seq![debug_utils_name()]
    } else {
        Seq::empty()
    }) + (if portability {
        seq![portability_enumeration_name()]
    } else {
        Seq::empty()
    }));
    let mut i: usize = 0;
    while i < display_extensions.len()
        invariant
            i <= display_extensions@.len(),
            name_views(r@) == head + name_views(display_extensions@).take(i as int),
        decreases display_extensions@.len() - i,
    {
        let name = display_extensions[i].clone();
        proof {
            assert(name@ =~= display_extensions@[i as int]@);
        }
        let ghost before = r@;
        r.push(name);
        proof {
            assert(name_views(r@) =~= name_views(before).push(display_extensions@[i as int]@));
            assert(name_views(display_extensions@).take(i + 1) =~= name_views(display_extensions@).take(
                i as int,
            ).push(display_extensions@[i as int]@));
            assert(name_views(r@) =~= head + name_views(display_extensions@).take(i + 1));
        }
        i = i + 1;
    }
    proof {
        assert(name_views(display_extensions@).take(display_extensions@.len() as int) =~= name_views(
            display_extensions@,
        ));
    }
    r
}

/// The instance create flags: enumerate portability devices when
/// `portability` (Apple platforms), none otherwise.
pub fn instance_create_flags(portability: bool) -> (r: u32)
    ensures
        r == if portability {
            INSTANCE_CREATE_ENUMERATE_PORTABILITY_KHR
        } else {
            0
        },
{
    if portability {
        INSTANCE_CREATE_ENUMERATE_PORTABILITY_KHR
    } else {
        0
    }
}

/// The instance extensions: debug utils first exactly in debug builds,
/// portability enumeration whenever portability is asked for (in debug and
/// release builds alike, so that it goes with the enumerate-portability
/// create flag), and then every display extension, in order. Nothing else
/// is added.
pub proof fn law_instance_extensions(debug: bool, portability: bool, display: Seq<Seq<u8>>)
    ensures
        ({
            let r = instance_extensions_spec(debug, portability, display);
            let extra = (if debug { 1int } else { 0int }) + (if portability { 1int } else { 0int });
            &&& r.len() == extra + display.len()
            &&& r.subrange(extra, r.len() as int) == display
            &&& debug ==> r[0] == debug_utils_name()
            &&& portability ==> r[extra - 1] == portability_enumeration_name()
            &&& portability ==> r.contains(portability_enumeration_name())
        }),
{
    let r = instance_extensions_spec(debug, portability, display);
    let extra = (if debug { 1int } else { 0int }) + (if portability { 1int } else { 0int });
    assert(r.subrange(extra, r.len() as int) =~= display);
    if portability {
        assert(r[extra - 1] == portability_enumeration_name());
    }
}

} // verus!
