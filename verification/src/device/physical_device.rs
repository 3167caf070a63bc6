//! What the library reads of a physical device, and the choices it makes
//! from it.
use vstd::prelude::*;
use vstd::string::StringSliceAdditionalSpecFns;
use crate::device::queue::QueueFamilyInfo;
use crate::seqs::{first_where, lemma_first_where_found, lemma_first_where_none, lemma_first_where_spec};
use crate::vkraw::{
    FORMAT_D24_UNORM_S8_UINT,
    FORMAT_D32_SFLOAT_S8_UINT,
    IMAGE_TILING_LINEAR,
    IMAGE_TILING_OPTIMAL,
};

verus! {

/// A `VkSurfaceFormatKHR`.
#[derive(Clone, Copy, Debug, PartialEq, Eq, Structural)]
pub struct SurfaceFormat {
    pub format: i32,
    pub color_space: i32,
}

/// A `VkExtent2D`.
#[derive(Clone, Copy, Debug, PartialEq, Eq, Structural)]
pub struct Extent2D {
    pub width: u32,
    pub height: u32,
}

/// The part of `VkSurfaceCapabilitiesKHR` that the library reads.
#[derive(Clone, Copy, Debug, PartialEq, Eq, Structural)]
pub struct SurfaceCapabilities {
    pub min_image_count: u32,
    pub max_image_count: u32,
    pub current_extent: Extent2D,
    /// `VkSurfaceTransformFlagBitsKHR`.
    pub current_transform: u32,
}

/// What a surface supports on a physical device.
#[derive(Clone, Debug, PartialEq, Eq)]
pub struct SwapChainSupportDetails {
    pub formats: Vec<SurfaceFormat>,
    /// `VkPresentModeKHR` values.
    pub present_modes: Vec<i32>,
    pub capabilities: SurfaceCapabilities,
}

/// A `VkQueueFamilyProperties`, as far as the library reads it.
#[derive(Clone, Copy, Debug, PartialEq, Eq, Structural)]
pub struct QueueFamilyProperties {
    pub queue_flags: u32,
    pub queue_count: u32,
}

/// A `VkFormatProperties`, as far as the library reads it.
#[derive(Clone, Copy, Debug, PartialEq, Eq, Structural)]
pub struct FormatProperties {
    pub linear_tiling_features: u32,
    pub optimal_tiling_features: u32,
}

/// No memory type of the device has the required properties.
#[derive(Clone, Copy, Debug, PartialEq, Eq, Structural)]
pub struct NoSuitableMemoryType;

/// Memory type `i` is allowed by `type_filter` and has every property in `flags`.
pub open spec fn memory_type_suitable(
    property_flags: Seq<u32>,
    type_filter: u32,
    flags: u32,
    i: int,
) -> bool {
    type_filter & (1u32 << (i as u32)) != 0 && property_flags[i] & flags == flags
}

/// The first memory type that `memory_type_suitable` accepts.
pub open spec fn first_suitable_memory_type(property_flags: Seq<u32>, type_filter: u32, flags: u32) -> Option<int> {
    first_where(
        Seq::new(property_flags.len(), |i: int| i),
        |i: int| memory_type_suitable(property_flags, type_filter, flags, i),
    )
}

/// Finds the index of the first memory type (of those in
/// `memory_type_flags`, the property flags of each memory type of the device)
/// that `type_filter` allows and that has all the properties in `flags`.
pub fn find_memory_type_index(memory_type_flags: &Vec<u32>, flags: u32, type_filter: u32) -> (r:
    Result<u32, NoSuitableMemoryType>)
    requires
        memory_type_flags@.len() <= 32,
    ensures
        match first_suitable_memory_type(memory_type_flags@, type_filter, flags) {
            Some(i) => r == Ok::<u32, NoSuitableMemoryType>(i as u32),
            None => r == Err::<u32, NoSuitableMemoryType>(NoSuitableMemoryType),
        },
{
    let ghost idx = Seq::new(memory_type_flags@.len(), |i: int| i);
    let ghost p = |i: int| memory_type_suitable(memory_type_flags@, type_filter, flags, i);
    let count = memory_type_flags.len();
    let mut i: usize = 0;
    while i < count
        invariant
            count == memory_type_flags@.len() <= 32,
            i <= count,
            idx == Seq::new(memory_type_flags@.len(), |i: int| i),
            p == |i: int| memory_type_suitable(memory_type_flags@, type_filter, flags, i),
            forall|k: int| 0 <= k < i ==> !p(#[trigger] idx[k]),
        decreases count - i,
    {
        let bit = i as u32;
        if (type_filter & (1u32 << bit)) != 0 && (memory_type_flags[i] & flags) == flags {
            proof {
                assert(p(idx[i as int]));
                lemma_first_where_found(idx, p, i as int);
            }
            return Ok(bit);
        }
        assert(!p(idx[i as int]));
        i = i + 1;
    }
    proof {
        lemma_first_where_none(idx, p);
    }
    Err(NoSuitableMemoryType)
}

/// The depth formats that the library tries, in order of preference.
pub open spec fn depth_format_candidates_spec() -> Seq<i32> {
    seq![FORMAT_D32_SFLOAT_S8_UINT, FORMAT_D24_UNORM_S8_UINT]
}

/// The depth formats that the library tries, in order of preference.
pub fn depth_format_candidates() -> (r: Vec<i32>)
    ensures
        r@ == depth_format_candidates_spec(),
{
    let r = vec![FORMAT_D32_SFLOAT_S8_UINT, FORMAT_D24_UNORM_S8_UINT];
    assert(r@ =~= depth_format_candidates_spec());
    r
}

/// A format with properties `props` has every feature in `features` under `tiling`.
pub open spec fn format_supports(props: FormatProperties, tiling: i32, features: u32) -> bool {
    (tiling == IMAGE_TILING_LINEAR && props.linear_tiling_features & features == features) || (
    tiling == IMAGE_TILING_OPTIMAL && props.optimal_tiling_features & features == features)
}

/// Picks the first candidate depth format that supports `features` under
/// `tiling`; `candidate_properties[i]` are the properties of the `i`-th
/// candidate of `depth_format_candidates`.
pub fn find_depth_format(tiling: i32, features: u32, candidate_properties: &Vec<FormatProperties>) -> (r:
    Option<i32>)
    requires
        candidate_properties@.len() == depth_format_candidates_spec().len(),
    ensures
        r == match first_where(candidate_properties@, |p: FormatProperties| format_supports(p, tiling, features)) {
            Some(i) => Some(depth_format_candidates_spec()[i]),
            None => None::<i32>,
        },
{
    let candidates = depth_format_candidates();
    let ghost p = |q: FormatProperties| format_supports(q, tiling, features);
    let mut i: usize = 0;
    while i < candidates.len()
        invariant
            candidates@ == depth_format_candidates_spec(),
            candidate_properties@.len() == candidates@.len(),
            i <= candidates@.len(),
            p == |q: FormatProperties| format_supports(q, tiling, features),
            forall|k: int| 0 <= k < i ==> !p(#[trigger] candidate_properties@[k]),
        decreases candidates@.len() - i,
    {
        let props = candidate_properties[i];
        if (tiling == IMAGE_TILING_LINEAR && (props.linear_tiling_features & features) == features)
            || (tiling == IMAGE_TILING_OPTIMAL && (props.optimal_tiling_features & features)
            == features) {
            proof {
                lemma_first_where_found(candidate_properties@, p, i as int);
            }
            return Some(candidates[i]);
        }
        i = i + 1;
    }
    proof {
        lemma_first_where_none(candidate_properties@, p);
    }
    None
}


/// How many of the first `n` families have at least one queue.
pub open spec fn families_with_queues_count(families: Seq<QueueFamilyProperties>, n: nat) -> nat
    decreases n,
{
    if n == 0 {
        0
    } else {
        families_with_queues_count(families, (n - 1) as nat) + if families[n - 1].queue_count > 0 {
            1nat
        } else {
            0nat
        }
    }
}

/// A family is listed when the list built so far is empty, or when some
/// entry of it shares no flag with the family.
pub open spec fn adds_entry(infos: Seq<QueueFamilyInfo>, family: QueueFamilyProperties) -> bool {
    infos.len() == 0 || exists|j: int|
        0 <= j < infos.len() && (#[trigger] infos[j]).flags & family.queue_flags == 0
}

/// The queue family list built from the first `n` families. Families without
/// queues are skipped; a listed family is recorded with its flags, queue count
/// and presentation support, under its position among the families that have
/// queues (not its position among all families).
pub open spec fn queue_families_info(
    families: Seq<QueueFamilyProperties>,
    present: Seq<bool>,
    n: nat,
) -> Seq<QueueFamilyInfo>
    decreases n,
{
    if n == 0 {
        Seq::empty()
    } else {
        let before = queue_families_info(families, present, (n - 1) as nat);
        let i = n - 1;
        if families[i].queue_count > 0 && adds_entry(before, families[i]) {
            before.push(
                QueueFamilyInfo {
                    flags: families[i].queue_flags,
                    index: families_with_queues_count(families, i as nat) as u32,
                    queue_count: families[i].queue_count,
                    present_support: present[i],
                },
            )
        } else {
            before
        }
    }
}

proof fn lemma_families_with_queues_count_bounded(families: Seq<QueueFamilyProperties>, n: nat)
    ensures
        families_with_queues_count(families, n) <= n,
    decreases n,
{
    if n > 0 {
        lemma_families_with_queues_count_bounded(families, (n - 1) as nat);
    }
}

/// Builds the queue family list of a physical device from its queue family
/// properties. A family is recorded under its position among the families
/// that have queues; `present[i]` says whether the surface supports
/// presentation for the index under which family `i` is recorded.
pub fn build_queue_families_info(families: &Vec<QueueFamilyProperties>, present: &Vec<bool>) -> (r:
    Vec<QueueFamilyInfo>)
    requires
        present@.len() == families@.len(),
        families@.len() <= u32::MAX,
    ensures
        r@ == queue_families_info(families@, present@, families@.len()),
{
    let mut infos: Vec<QueueFamilyInfo> = Vec::new();
    let mut kept: u32 = 0;
    let mut idx: usize = 0;
    while idx < families.len()
        invariant
            idx <= families@.len() <= u32::MAX,
            present@.len() == families@.len(),
            kept == families_with_queues_count(families@, idx as nat),
            infos@ == queue_families_info(families@, present@, idx as nat),
        decreases families@.len() - idx,
    {
        proof {
            lemma_families_with_queues_count_bounded(families@, idx as nat);
        }
        let family = families[idx];
        if family.queue_count > 0 {
            let mut to_push = false;
            let mut j: usize = 0;
            while j < infos.len()
                invariant
                    j <= infos@.len(),
                    to_push == exists|k: int|
                        0 <= k < j && (#[trigger] infos@[k]).flags & family.queue_flags == 0,
                decreases infos@.len() - j,
            {
                if infos[j].flags & family.queue_flags == 0 {
                    to_push = true;
                }
                j = j + 1;
            }
            if to_push || infos.len() == 0 {
                infos.push(
                    QueueFamilyInfo {
                        flags: family.queue_flags,
                        index: kept,
                        queue_count: family.queue_count,
                        present_support: present[idx],
                    },
                );
            }
            kept = kept + 1;
        }
        idx = idx + 1;
    }
    infos
}

/// `name` is one of `names`.
pub open spec fn contains_name(names: Seq<Seq<u8>>, name: Seq<u8>) -> bool {
    exists|i: int| 0 <= i < names.len() && names[i] == name
}

/// The views of a list of names.
pub open spec fn name_views(names: Seq<Vec<u8>>) -> Seq<Seq<u8>> {
    names.map_values(|n: Vec<u8>| n@)
}

/// The supported names that are requested, in the order of the supported list.
pub open spec fn requested_and_supported(requested: Seq<Seq<u8>>, supported: Seq<Seq<u8>>) -> Seq<
    Seq<u8>,
> {
    supported.filter(|n: Seq<u8>| contains_name(requested, n))
}

/// Whether two names are equal, byte by byte.
pub fn names_equal(a: &Vec<u8>, b: &Vec<u8>) -> (r: bool)
    ensures
        r == (a@ == b@),
{
    if a.len() != b.len() {
        return false;
    }
    let mut i: usize = 0;
    while i < a.len()
        invariant
            a@.len() == b@.len(),
            i <= a@.len(),
            forall|k: int| 0 <= k < i ==> a@[k] == b@[k],
        decreases a@.len() - i,
    {
        if a[i] != b[i] {
            return false;
        }
        i = i + 1;
    }
    assert(a@ =~= b@);
    true
}

/// Whether `name` is one of `names`.
pub fn has_name(names: &Vec<Vec<u8>>, name: &Vec<u8>) -> (r: bool)
    ensures
        r == contains_name(name_views(names@), name@),
{
    let mut i: usize = 0;
    while i < names.len()
        invariant
            i <= names@.len(),
            forall|k: int| 0 <= k < i ==> names@[k]@ != name@,
        decreases names@.len() - i,
    {
        if names_equal(&names[i], name) {
            assert(name_views(names@)[i as int] == name@);
            return true;
        }
        i = i + 1;
    }
    proof {
        assert forall|k: int| 0 <= k < name_views(names@).len() implies name_views(names@)[k] != name@ by {
            assert(name_views(names@)[k] == names@[k]@);
        }
    }
    false
}

/// The requested device extensions that the device supports, in the order in
/// which the device lists them.
pub fn query_extensions_support(requested: &Vec<Vec<u8>>, device_supported: &Vec<Vec<u8>>) -> (r: Vec<Vec<u8>>)
    ensures
        name_views(r@) == requested_and_supported(name_views(requested@), name_views(device_supported@)),
{
    let mut r: Vec<Vec<u8>> = Vec::new();
    let mut i: usize = 0;
    while i < device_supported.len()
        invariant
            i <= device_supported@.len(),
            name_views(r@) == requested_and_supported(
                name_views(requested@),
                name_views(device_supported@).take(i as int),
            ),
        decreases device_supported@.len() - i,
    {
        proof {
            assert(name_views(device_supported@).take(i + 1).drop_last() =~= name_views(device_supported@).take(i as int));
            reveal_with_fuel(Seq::filter, 1);
        }
        if has_name(requested, &device_supported[i]) {
            let name = device_supported[i].clone();
            proof {
                assert(name@ =~= device_supported@[i as int]@);
            }
            let ghost before = r@;
            r.push(name);
            proof {
                assert(name_views(r@) =~= name_views(before).push(name@));
            }
        }
        i = i + 1;
    }
    proof {
        assert(name_views(device_supported@).take(device_supported@.len() as int) =~= name_views(device_supported@));
    }
    r
}


/// The memory type chosen is suitable and no earlier one is; when none is
/// chosen, none is suitable.
pub proof fn law_memory_type_choice(property_flags: Seq<u32>, type_filter: u32, flags: u32)
    ensures
        first_suitable_memory_type(property_flags, type_filter, flags) matches Some(i) ==> {
            &&& 0 <= i < property_flags.len()
            &&& memory_type_suitable(property_flags, type_filter, flags, i)
            &&& forall|j: int| 0 <= j < i ==> !memory_type_suitable(property_flags, type_filter, flags, j)
        },
        first_suitable_memory_type(property_flags, type_filter, flags) is None ==> forall|j: int|
            0 <= j < property_flags.len() ==> !memory_type_suitable(property_flags, type_filter, flags, j),
{
    let idx = Seq::new(property_flags.len(), |i: int| i);
    let p = |i: int| memory_type_suitable(property_flags, type_filter, flags, i);
    lemma_first_where_spec(idx, p);
    if let Some(i) = first_where(idx, p) {
        assert(p(idx[i]));
        assert forall|j: int| 0 <= j < i implies !memory_type_suitable(property_flags, type_filter, flags, j) by {
            assert(!p(idx[j]));
        }
    } else {
        assert forall|j: int| 0 <= j < property_flags.len() implies !memory_type_suitable(
            property_flags,
            type_filter,
            flags,
            j,
        ) by {
            assert(!p(idx[j]));
        }
    }
}

/// The depth format chosen is the first candidate, in order of preference,
/// whose properties under `tiling` (linear or optimal) have every requested
/// feature bit; no format is chosen when none has them.
pub proof fn law_depth_format_has_every_feature(tiling: i32, features: u32, props: Seq<FormatProperties>)
    requires
        props.len() == depth_format_candidates_spec().len(),
    ensures
        ({
            let has = |p: FormatProperties|
                (tiling == IMAGE_TILING_LINEAR && p.linear_tiling_features & features == features) || (
                tiling == IMAGE_TILING_OPTIMAL && p.optimal_tiling_features & features == features);
            &&& has(props[0]) ==> first_where(props, |p: FormatProperties| format_supports(p, tiling, features))
                == Some(0int)
            &&& !(has(props[0])) && has(props[1]) ==> first_where(
                props,
                |p: FormatProperties| format_supports(p, tiling, features),
            ) == Some(1int)
            &&& !(has(props[0])) && !(has(props[1])) ==> first_where(
                props,
                |p: FormatProperties| format_supports(p, tiling, features),
            ) is None
        }),
{
    let q = |p: FormatProperties| format_supports(p, tiling, features);
    lemma_first_where_spec(props, q);
    assert(q(props[0]) == format_supports(props[0], tiling, features));
    assert(q(props[1]) == format_supports(props[1], tiling, features));
    if let Some(i) = first_where(props, q) {
        assert(q(props[i]));
    }
}

/// The memory type chosen has every requested property (all bits of `flags`
/// are set in its property flags, not just some) and is allowed by the
/// filter's bit for it; no earlier type is both allowed and has every
/// property. When none is chosen, no type is both.
pub proof fn law_memory_type_has_every_property(property_flags: Seq<u32>, type_filter: u32, flags: u32)
    ensures
        first_suitable_memory_type(property_flags, type_filter, flags) matches Some(i) ==> {
            &&& 0 <= i < property_flags.len()
            &&& property_flags[i] & flags == flags
            &&& type_filter & (1u32 << (i as u32)) != 0
            &&& forall|j: int|
                0 <= j < i ==> !(type_filter & (1u32 << (j as u32)) != 0 && #[trigger] property_flags[j] & flags
                    == flags)
        },
        first_suitable_memory_type(property_flags, type_filter, flags) is None ==> forall|j: int|
            0 <= j < property_flags.len() ==> !(type_filter & (1u32 << (j as u32)) != 0
                && #[trigger] property_flags[j] & flags == flags),
{
    law_memory_type_choice(property_flags, type_filter, flags);
    if let Some(i) = first_suitable_memory_type(property_flags, type_filter, flags) {
        assert(memory_type_suitable(property_flags, type_filter, flags, i));
        assert forall|j: int| 0 <= j < i implies !(type_filter & (1u32 << (j as u32)) != 0
            && #[trigger] property_flags[j] & flags == flags) by {
            assert(!memory_type_suitable(property_flags, type_filter, flags, j));
        }
    } else {
        assert forall|j: int| 0 <= j < property_flags.len() implies !(type_filter & (1u32 << (j as u32))
            != 0 && #[trigger] property_flags[j] & flags == flags) by {
            assert(!memory_type_suitable(property_flags, type_filter, flags, j));
        }
    }
}

/// Of the requested device extensions, those kept are exactly those the
/// device supports (`device_extensions` then adds the portability subset on
/// Apple platforms, see `law_device_extensions`).
pub proof fn law_enabled_extensions(requested: Seq<Seq<u8>>, supported: Seq<Seq<u8>>, name: Seq<u8>)
    ensures
        requested_and_supported(requested, supported).contains(name) <==> (contains_name(requested, name)
            && supported.contains(name)),
{
    let p = |n: Seq<u8>| contains_name(requested, n);
    let kept = requested_and_supported(requested, supported);
    if kept.contains(name) {
        supported.lemma_filter_contains_rev(p, name);
        let i = choose|i: int| 0 <= i < kept.len() && kept[i] == name;
        supported.lemma_filter_pred(p, i);
    }
    if contains_name(requested, name) && supported.contains(name) {
        let i = choose|i: int| 0 <= i < supported.len() && supported[i] == name;
        supported.lemma_filter_contains(p, i);
    }
}

/// The name of the `VK_KHR_portability_subset` extension.
pub open spec fn portability_subset_name() -> Seq<u8> {
    "VK_KHR_portability_subset".spec_bytes()
}

/// `ash::vk::KHR_PORTABILITY_SUBSET_NAME`, without its terminating nul: the
/// bytes of `VK_KHR_portability_subset`.
#[verifier::external_body]
fn portability_subset_extension() -> (r: Vec<u8>)
    ensures
        r@ == portability_subset_name(),
{
    ash::vk::KHR_PORTABILITY_SUBSET_NAME.to_bytes().to_vec()
}

/// The extensions a device is created with: the requested ones that the
/// device supports, in the device's order, then `VK_KHR_portability_subset`
/// when `portability` (Apple platforms).
pub open spec fn device_extensions_spec(requested: Seq<Seq<u8>>, supported: Seq<Seq<u8>>, portability: bool) -> Seq<
    Seq<u8>,
> {
    requested_and_supported(requested, supported) + if portability {
        seq![portability_subset_name()]
    } else {
        Seq::empty()
    }
}

/// The extensions to enable on a device that supports `device_supported`
/// (in its order) when `requested` are asked for: unsupported requests are
/// dropped, and `VK_KHR_portability_subset` is added when `portability`
/// (Apple platforms).
pub fn device_extensions(requested: &Vec<Vec<u8>>, device_supported: &Vec<Vec<u8>>, portability: bool) -> (r:
    Vec<Vec<u8>>)
    ensures
        name_views(r@) == device_extensions_spec(name_views(requested@), name_views(device_supported@), portability),
{
    let mut r = query_extensions_support(requested, device_supported);
    if portability {
        let ghost before = r@;
        let name = portability_subset_extension();
        r.push(name);
        proof {
            assert(name_views(r@) =~= name_views(before).push(portability_subset_name()));
        }
    }
    proof {
        assert(name_views(r@) =~= device_extensions_spec(name_views(requested@), name_views(device_supported@), portability));
    }
    r
}

/// A device is created with exactly the extensions that are both requested
/// and supported, plus `VK_KHR_portability_subset` on Apple platforms.
pub proof fn law_device_extensions(requested: Seq<Seq<u8>>, supported: Seq<Seq<u8>>, portability: bool, name: Seq<u8>)
    ensures
        device_extensions_spec(requested, supported, portability).contains(name) <==> ((contains_name(requested, name)
            && supported.contains(name)) || (portability && name == portability_subset_name())),
{
    law_enabled_extensions(requested, supported, name);
    let kept = requested_and_supported(requested, supported);
    let tail = if portability {
        seq![portability_subset_name()]
    } else {
        Seq::<Seq<u8>>::empty()
    };
    let all = device_extensions_spec(requested, supported, portability);
    assert(all == kept + tail);
    if all.contains(name) {
        let i = choose|i: int| 0 <= i < all.len() && all[i] == name;
        if i < kept.len() {
            assert(kept[i] == name);
        } else {
            assert(tail[i - kept.len()] == name);
        }
    }
    if kept.contains(name) {
        let i = choose|i: int| 0 <= i < kept.len() && kept[i] == name;
        assert(all[i] == name);
    }
    if portability && name == portability_subset_name() {
        assert(all[kept.len() as int] == name);
    }
}

/// Each family is recorded under its own index: the indices of the queue
/// family list increase strictly and stay below the number of families that
/// have queues.
pub proof fn law_queue_family_indices_increase(
    families: Seq<QueueFamilyProperties>,
    present: Seq<bool>,
    n: nat,
)
    requires
        n <= families.len() <= u32::MAX,
    ensures
        forall|a: int, b: int|
            0 <= a < b < queue_families_info(families, present, n).len() ==> (#[trigger] queue_families_info(
                families,
                present,
                n,
            )[a]).index < (#[trigger] queue_families_info(families, present, n)[b]).index,
        forall|a: int|
            0 <= a < queue_families_info(families, present, n).len() ==> (#[trigger] queue_families_info(
                families,
                present,
                n,
            )[a]).index < families_with_queues_count(families, n),
    decreases n,
{
    if n > 0 {
        let before = queue_families_info(families, present, (n - 1) as nat);
        let r = queue_families_info(families, present, n);
        law_queue_family_indices_increase(families, present, (n - 1) as nat);
        lemma_families_with_queues_count_bounded(families, (n - 1) as nat);
        let count = families_with_queues_count(families, (n - 1) as nat);
        if r.len() > before.len() {
            assert(r == before.push(r.last()));
            assert(r.last().index == count);
            assert forall|a: int, b: int| 0 <= a < b < r.len() implies (#[trigger] r[a]).index
                < (#[trigger] r[b]).index by {
                if b < before.len() {
                    assert(before[a].index < before[b].index);
                } else {
                    assert(before[a].index < count);
                }
            }
        }
    }
}

/// A device with a queue family that has queues gets at least one entry in
/// its queue family list.
pub proof fn law_queue_families_not_empty(
    families: Seq<QueueFamilyProperties>,
    present: Seq<bool>,
    n: nat,
    i: int,
)
    requires
        0 <= i < n <= families.len(),
        families[i].queue_count > 0,
    ensures
        queue_families_info(families, present, n).len() > 0,
    decreases n,
{
    if i < n - 1 {
        law_queue_families_not_empty(families, present, (n - 1) as nat, i);
    }
}

} // verus!
