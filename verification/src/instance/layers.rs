//! The validation layers the library enables when they are available.
use vstd::prelude::*;
use vstd::string::StringSliceAdditionalSpecFns;

verus! {

/// The name of the Khronos validation layer.
pub open spec fn validation_layer_name() -> Seq<u8> {
    "VK_LAYER_KHRONOS_validation".spec_bytes()
}

/// Available layer `i`, whose name is `names[i]` (`None` when it is not a
/// valid UTF-8 C string), is a validation layer the library enables.
pub open spec fn is_validation_layer(names: Seq<Option<Vec<u8>>>, i: int) -> bool {
    names[i] matches Some(n) && n@ == validation_layer_name()
}

/// The positions of the enabled layers among the first `n` available ones.
pub open spec fn validation_layers_among(names: Seq<Option<Vec<u8>>>, n: nat) -> Seq<usize>
    decreases n,
{
    if n == 0 {
        Seq::empty()
    } else {
        let before = validation_layers_among(names, (n - 1) as nat);
        if is_validation_layer(names, n - 1) {
            before.push((n - 1) as usize)
        } else {
            before
        }
    }
}

fn validation_layer_bytes() -> (r: Vec<u8>)
    ensures
        r@ == validation_layer_name(),
{
    let name: &str = "VK_LAYER_KHRONOS_validation";
    vstd::slice::slice_to_vec(name.as_bytes())
}

fn bytes_equal(a: &Vec<u8>, b: &Vec<u8>) -> (r: bool)
    ensures
        r == (a@ == b@),
{
    if a.len() != b.len() {
        return false;
    }
    let mut i: usize = 0;
    while i < a.len()
        invariant
            a@.len() == b@.len(),
            i <= a@.len(),
            forall|k: int| 0 <= k < i ==> a@[k] == b@[k],
        decreases a@.len() - i,
    {
        if a[i] != b[i] {
            return false;
        }
        i = i + 1;
    }
    assert(a@ =~= b@);
    true
}

/// Which of the available layers (by name, in order) to enable: the
/// Khronos validation layer, wherever it is listed.
pub fn get_supported_validation_layers(available: &Vec<Option<Vec<u8>>>) -> (r: Vec<usize>)
    ensures
        r@ == validation_layers_among(available@, available@.len()),
{
    let wanted = validation_layer_bytes();
    let mut r: Vec<usize> = Vec::new();
    let mut i: usize = 0;
    while i < available.len()
        invariant
            i <= available@.len(),
            wanted@ == validation_layer_name(),
            r@ == validation_layers_among(available@, i as nat),
        decreases available@.len() - i,
    {
        match &available[i] {
            Some(name) => {
                if bytes_equal(name, &wanted) {
                    r.push(i);
                }
            },
            None => {},
        }
        i = i + 1;
    }
    r
}

} // verus!
