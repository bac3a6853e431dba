use vstd::prelude::*;
use crate::diagnostics::{CATEGORY_GENERAL, CATEGORY_PERFORMANCE, CATEGORY_VALIDATION, SEVERITY_ALL};
use crate::error::BootstrapError;
use crate::version::{
    portability_min_version, spec_portability_min_version, version_at_least, Version,
};

verus! {

/// Name of the validation layer required when diagnostics are on.
pub open spec fn spec_validation_layer() -> Seq<char> {
    "VK_LAYER_KHRONOS_validation"@
}

/// Executable counterpart of [`spec_validation_layer`].
pub fn validation_layer() -> (s: String)
    ensures
        s@ == spec_validation_layer(),
{
    String::from_str("VK_LAYER_KHRONOS_validation")
}

/// First instance-level portability extension appended on a
/// macOS-like platform.
pub open spec fn spec_properties2_extension() -> Seq<char> {
    "VK_KHR_get_physical_device_properties2"@
}

/// Executable counterpart of [`spec_properties2_extension`].
pub fn properties2_extension() -> (s: String)
    ensures
        s@ == spec_properties2_extension(),
{
    String::from_str("VK_KHR_get_physical_device_properties2")
}

/// Second instance-level portability extension appended on a
/// macOS-like platform.
pub open spec fn spec_portability_enumeration_extension() -> Seq<char> {
    "VK_KHR_portability_enumeration"@
}

/// Executable counterpart of [`spec_portability_enumeration_extension`].
pub fn portability_enumeration_extension() -> (s: String)
    ensures
        s@ == spec_portability_enumeration_extension(),
{
    String::from_str("VK_KHR_portability_enumeration")
}

/// Extension that activates the diagnostics channel.
pub open spec fn spec_debug_utils_extension() -> Seq<char> {
    "VK_EXT_debug_utils"@
}

/// Executable counterpart of [`spec_debug_utils_extension`].
pub fn debug_utils_extension() -> (s: String)
    ensures
        s@ == spec_debug_utils_extension(),
{
    String::from_str("VK_EXT_debug_utils")
}

/// True when `names` holds a string whose characters are `target`.
pub open spec fn spec_contains_name(names: Seq<String>, target: Seq<char>) -> bool {
    exists|i: int| 0 <= i < names.len() && (#[trigger] names[i])@ == target
}

/// Linear scan for `target` among `names`.
pub fn contains_name(names: &Vec<String>, target: &String) -> (r: bool)
    ensures
        r == spec_contains_name(names@, target@),
{
    let n = names.len();
    let mut i: usize = 0;
    while i < n
        invariant
            i <= n,
            n == names@.len(),
            forall|j: int| 0 <= j < i ==> (#[trigger] names@[j])@ != target@,
        decreases n - i,
    {
        if names[i].eq(target) {
            assert((i as int) < names@.len() && names@[i as int]@ == target@);
            return true;
        }
        i = i + 1;
    }
    false
}

/// True when the platform is macOS-like and the driver's reported
/// version meets the configured minimum, so the portability shims are
/// required.
pub open spec fn spec_portability_applies(macos: bool, driver_version: Version) -> bool {
    macos && version_at_least(driver_version, spec_portability_min_version())
}

/// The layer list negotiated for creation calls: exactly the
/// validation layer when diagnostics are on, empty otherwise.
pub open spec fn spec_instance_layers(diagnostics: bool) -> Seq<Seq<char>> {
    if diagnostics {
        seq![spec_validation_layer()]
    } else {
        Seq::<Seq<char>>::empty()
    }
}

/// The instance extension list: the platform-supplied window
/// extensions, then exactly the two portability extensions when the
/// portability condition holds, then the diagnostics extension when
/// diagnostics are on.
pub open spec fn spec_instance_extensions(
    window: Seq<Seq<char>>,
    macos: bool,
    driver_version: Version,
    diagnostics: bool,
) -> Seq<Seq<char>> {
    window + (if spec_portability_applies(macos, driver_version) {
        seq![spec_properties2_extension(), spec_portability_enumeration_extension()]
    } else {
        Seq::<Seq<char>>::empty()
    }) + (if diagnostics {
        seq![spec_debug_utils_extension()]
    } else {
        Seq::<Seq<char>>::empty()
    })
}

/// Portability law: the negotiated extension list carries the two
/// portability extensions exactly when the platform is macOS-like and
/// the driver version meets the configured minimum — provided the
/// platform-supplied window list does not itself name them.
pub proof fn lemma_portability_appended_iff(
    window: Seq<Seq<char>>,
    macos: bool,
    driver_version: Version,
    diagnostics: bool,
)
    requires
        !window.contains(spec_properties2_extension()),
        !window.contains(spec_portability_enumeration_extension()),
    ensures
        spec_instance_extensions(window, macos, driver_version, diagnostics).contains(
            spec_properties2_extension(),
        ) <==> spec_portability_applies(macos, driver_version),
        spec_instance_extensions(window, macos, driver_version, diagnostics).contains(
            spec_portability_enumeration_extension(),
        ) <==> spec_portability_applies(macos, driver_version),
{
    reveal_strlit("VK_KHR_get_physical_device_properties2");
    reveal_strlit("VK_KHR_portability_enumeration");
    reveal_strlit("VK_EXT_debug_utils");
    let exts = spec_instance_extensions(window, macos, driver_version, diagnostics);
    assert(spec_properties2_extension().len() == 38);
    assert(spec_portability_enumeration_extension().len() == 30);
    assert(spec_debug_utils_extension().len() == 18);
    if spec_portability_applies(macos, driver_version) {
        assert(exts[window.len() as int] == spec_properties2_extension());
        assert(exts[window.len() as int + 1] == spec_portability_enumeration_extension());
        assert(exts.contains(spec_properties2_extension()));
        assert(exts.contains(spec_portability_enumeration_extension()));
    } else {
        assert forall|i: int| 0 <= i < exts.len() implies exts[i]
            != spec_properties2_extension() && exts[i]
            != spec_portability_enumeration_extension() by {
            if i < window.len() {
                assert(window.contains(window[i])) by {
                    assert(window[i] == window[i]);
                }
                assert(exts[i] == window[i]);
            } else {
                assert(exts[i] == spec_debug_utils_extension());
            }
        }
    }
}

/// Everything the connection-creation driver call needs: the
/// negotiated layers and extensions, whether the portability creation
/// flag is set, whether the diagnostics configuration is chained into
/// the call, and the severity and category masks of that
/// configuration.
#[derive(Clone, Debug)]
pub struct InstancePlan {
    pub layers: Vec<String>,
    pub extensions: Vec<String>,
    pub portability: bool,
    pub diagnostics: bool,
    pub severity_mask: u32,
    pub category_mask: u32,
}

/// True when `plan` is exactly the plan owed for these inputs.
pub open spec fn spec_instance_plan_for(
    plan: InstancePlan,
    window: Seq<Seq<char>>,
    macos: bool,
    driver_version: Version,
    diagnostics: bool,
) -> bool {
    &&& plan.layers.deep_view() == spec_instance_layers(diagnostics)
    &&& plan.extensions.deep_view() == spec_instance_extensions(
        window,
        macos,
        driver_version,
        diagnostics,
    )
    &&& plan.portability == spec_portability_applies(macos, driver_version)
    &&& plan.diagnostics == diagnostics
    &&& plan.severity_mask == SEVERITY_ALL
    &&& plan.category_mask == (CATEGORY_GENERAL | CATEGORY_VALIDATION | CATEGORY_PERFORMANCE)
}

/// Instance Builder: negotiates layers, extensions and creation flags
/// for the connection-creation call. Fails with `ConfigurationError`
/// exactly when diagnostics are requested and the validation layer is
/// absent from the queried layer list; no plan (and so no driver
/// call) is produced in that case.
pub fn plan_instance(
    window_extensions: Vec<String>,
    available_layers: &Vec<String>,
    diagnostics: bool,
    macos: bool,
    driver_version: Version,
) -> (r: Result<InstancePlan, BootstrapError>)
    ensures
        r is Err <==> diagnostics && !spec_contains_name(
            available_layers@,
            spec_validation_layer(),
        ),
        r matches Err(e) ==> e == BootstrapError::ConfigurationError,
        r matches Ok(plan) ==> spec_instance_plan_for(
            plan,
            window_extensions.deep_view(),
            macos,
            driver_version,
            diagnostics,
        ),
{
    if diagnostics && !contains_name(available_layers, &validation_layer()) {
        return Err(BootstrapError::ConfigurationError);
    }

    let mut layers: Vec<String> = Vec::new();
    if diagnostics {
        layers.push(validation_layer());
    }
    assert(layers.deep_view() =~= spec_instance_layers(diagnostics));

    let ghost window_view: Seq<Seq<char>> = window_extensions.deep_view();
    let mut extensions = window_extensions;

    let portability = macos && driver_version.at_least(&portability_min_version());
    if portability {
        extensions.push(properties2_extension());
        extensions.push(portability_enumeration_extension());
    }
    if diagnostics {
        extensions.push(debug_utils_extension());
    }
    assert(extensions.deep_view() =~= spec_instance_extensions(
        window_view,
        macos,
        driver_version,
        diagnostics,
    ));

    Ok(
        InstancePlan {
            layers,
            extensions,
            portability,
            diagnostics,
            severity_mask: SEVERITY_ALL,
            category_mask: CATEGORY_GENERAL | CATEGORY_VALIDATION | CATEGORY_PERFORMANCE,
        },
    )
}

} // verus!
