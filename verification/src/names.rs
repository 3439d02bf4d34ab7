use vstd::prelude::*;

verus! {

/// Name of the validation layer that may be requested at instance creation.
pub open spec fn spec_validation_layer() -> Seq<char> {
    "VK_LAYER_KHRONOS_validation"@
}

pub fn validation_layer() -> (s: String)
    ensures
        s@ == spec_validation_layer(),
{
    "VK_LAYER_KHRONOS_validation".to_owned()
}

/// Name of the get-physical-device-properties2 extension, appended when
/// portability is gated in.
pub open spec fn spec_gpdp2_extension() -> Seq<char> {
    "VK_KHR_get_physical_device_properties2"@
}

pub fn gpdp2_extension() -> (s: String)
    ensures
        s@ == spec_gpdp2_extension(),
{
    "VK_KHR_get_physical_device_properties2".to_owned()
}

/// Name of the portability-enumeration extension, appended when portability
/// is gated in.
pub open spec fn spec_portability_enumeration_extension() -> Seq<char> {
    "VK_KHR_portability_enumeration"@
}

pub fn portability_enumeration_extension() -> (s: String)
    ensures
        s@ == spec_portability_enumeration_extension(),
{
    "VK_KHR_portability_enumeration".to_owned()
}

/// Fixed application metadata carried by every creation request.
pub open spec fn spec_application_name() -> Seq<char> {
    "Vulkan Tutorial"@
}

pub fn application_name() -> (s: String)
    ensures
        s@ == spec_application_name(),
{
    "Vulkan Tutorial".to_owned()
}

/// Fixed engine metadata carried by every creation request.
pub open spec fn spec_engine_name() -> Seq<char> {
    "No Engine"@
}

pub fn engine_name() -> (s: String)
    ensures
        s@ == spec_engine_name(),
{
    "No Engine".to_owned()
}

/// The character sequences of a list of names.
pub open spec fn views_of(names: Seq<String>) -> Seq<Seq<char>> {
    names.map_values(|s: String| s@)
}

/// No name occurs twice.
pub open spec fn distinct_names(names: Seq<Seq<char>>) -> bool {
    forall|i: int, j: int| 0 <= i < j < names.len() ==> names[i] != names[j]
}

/// The two portability extension names differ from each other.
pub proof fn lemma_portability_names_distinct()
    ensures
        spec_gpdp2_extension() != spec_portability_enumeration_extension(),
{
    reveal_strlit("VK_KHR_get_physical_device_properties2");
    reveal_strlit("VK_KHR_portability_enumeration");
    assert(spec_gpdp2_extension().len() == 38);
    assert(spec_portability_enumeration_extension().len() == 30);
}

/// Whether `name` occurs in `names`.
pub fn contains_name(names: &Vec<String>, name: &String) -> (b: bool)
    ensures
        b == views_of(names@).contains(name@),
{
    let mut i: usize = 0;
    while i < names.len()
        invariant
            i <= names.len(),
            forall|k: int| 0 <= k < i ==> views_of(names@)[k] != name@,
        decreases names.len() - i,
    {
        if names[i] == *name {
            assert(views_of(names@)[i as int] == name@);
            return true;
        }
        i += 1;
    }
    false
}

} // verus!
