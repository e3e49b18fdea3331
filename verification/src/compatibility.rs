//! The controlled-versus-live compatibility qualification matrix.
use vstd::prelude::*;
use crate::text::append;

verus! {

/// How far a desktop's support has been qualified.
#[derive(Debug, Clone, Copy, PartialEq, Eq, Structural)]
pub enum QualificationState {
    LiveQualified,
    ControlledOnly,
    ExternallyBlocked,
    NotAvailable,
}

impl QualificationState {
    pub open spec fn label_spec(self) -> Seq<char> {
        match self {
            QualificationState::LiveQualified => "live_qualified"@,
            QualificationState::ControlledOnly => "controlled_only"@,
            QualificationState::ExternallyBlocked => "externally_blocked"@,
            QualificationState::NotAvailable => "not_available"@,
        }
    }

    pub fn as_str(self) -> (r: &'static str)
        ensures
            r@ == self.label_spec(),
    {
        match self {
            QualificationState::LiveQualified => "live_qualified",
            QualificationState::ControlledOnly => "controlled_only",
            QualificationState::ExternallyBlocked => "externally_blocked",
            QualificationState::NotAvailable => "not_available",
        }
    }
}

/// One desktop's row of the compatibility matrix.
#[derive(Debug, Clone, Copy, PartialEq, Eq)]
pub struct CompatibilityEntry {
    pub key: &'static str,
    pub desktop: &'static str,
    pub implementation: &'static str,
    pub controlled: &'static str,
    pub live: QualificationState,
    pub prerequisite: &'static str,
    pub provider_model: &'static str,
    pub support_claim: &'static str,
    pub active_gate: &'static str,
    pub blocker: &'static str,
}

impl CompatibilityEntry {
    pub open spec fn doc_row_spec(self) -> Seq<char> {
        self.key@ + "|desktop="@ + self.desktop@ + "|implementation="@ + self.implementation@ + "|controlled="@
            + self.controlled@ + "|live="@ + self.live.label_spec() + "|prerequisite="@ + self.prerequisite@
            + "|provider_model="@ + self.provider_model@ + "|support_claim="@ + self.support_claim@ + "|active_gate="@
            + self.active_gate@ + "|blocker="@ + self.blocker@
    }

    /// Stable machine-readable row mirrored by the compatibility documents.
    pub fn doc_row(self) -> (r: String)
        ensures
            r@ == self.doc_row_spec(),
    {
        let mut r = self.key.to_owned();
        append(&mut r, "|desktop=");
        append(&mut r, self.desktop);
        append(&mut r, "|implementation=");
        append(&mut r, self.implementation);
        append(&mut r, "|controlled=");
        append(&mut r, self.controlled);
        append(&mut r, "|live=");
        append(&mut r, self.live.as_str());
        append(&mut r, "|prerequisite=");
        append(&mut r, self.prerequisite);
        append(&mut r, "|provider_model=");
        append(&mut r, self.provider_model);
        append(&mut r, "|support_claim=");
        append(&mut r, self.support_claim);
        append(&mut r, "|active_gate=");
        append(&mut r, self.active_gate);
        append(&mut r, "|blocker=");
        append(&mut r, self.blocker);
        r
    }

    /// Every descriptive field is filled in.
    pub open spec fn fields_present(self) -> bool {
        &&& self.key@.len() > 0
        &&& self.desktop@.len() > 0
        &&& self.implementation@.len() > 0
        &&& self.controlled@.len() > 0
        &&& self.prerequisite@.len() > 0
        &&& self.provider_model@.len() > 0
        &&& self.support_claim@.len() > 0
        &&& self.active_gate@.len() > 0
    }

    /// A row cannot claim live support without a concrete recheck
    /// prerequisite, nor stay below live without a blocker.
    pub fn validate(self) -> (r: Result<(), &'static str>)
        ensures
            match r {
                Ok(()) => self.fields_present() && (self.live != QualificationState::LiveQualified ==> self.blocker@.len() > 0),
                Err(msg) => if !self.fields_present() {
                    msg@ == "compatibility inventory fields must not be empty"@
                } else {
                    self.live != QualificationState::LiveQualified && self.blocker@.len() == 0
                        && msg@ == "non-live qualification requires an explicit blocker"@
                },
            },
    {
        if self.key.is_empty() || self.desktop.is_empty() || self.implementation.is_empty() || self.controlled.is_empty()
            || self.prerequisite.is_empty() || self.provider_model.is_empty() || self.support_claim.is_empty()
            || self.active_gate.is_empty() {
            return Err("compatibility inventory fields must not be empty");
        }
        if self.live != QualificationState::LiveQualified && self.blocker.is_empty() {
            return Err("non-live qualification requires an explicit blocker");
        }
        Ok(())
    }
}

/// Compatibility evidence currently recorded. Controlled fixture coverage
/// is not promoted to live support.
pub fn compatibility_inventory() -> (v: Vec<CompatibilityEntry>)
    ensures
        v@.len() == 5,
        v@[0].live == QualificationState::LiveQualified,
        forall|i: int| 1 <= i < 5 ==> (#[trigger] v@[i]).live == QualificationState::ControlledOnly,
{
    let mut v: Vec<CompatibilityEntry> = Vec::new();
    v.push(CompatibilityEntry {
        key: "gnome",
        desktop: "GNOME",
        implementation: "complete",
        controlled: "complete",
        live: QualificationState::LiveQualified,
        prerequisite: "Ubuntu_26.04+GNOME+Wayland+systemd_user+portal_frontend",
        provider_model: "GNOME_capture+GTK_fallback+standard_portal_descriptors",
        support_claim: "passive_baseline_only;active_probes_unreleased",
        active_gate: "externally_blocked_Screenshot_and_ScreenCast",
        blocker: "Screenshot_GNOME_provider_hang_crash;ScreenCast_AvailableSourceTypes_Window_bit_2_missing",
    });
    v.push(CompatibilityEntry {
        key: "kde_plasma",
        desktop: "KDE_Plasma",
        implementation: "complete",
        controlled: "complete",
        live: QualificationState::ControlledOnly,
        prerequisite: "real_Plasma_Wayland+selected_kde_route+healthy_kde_backend_service+canonical_KDE_DBus_owner+capability_evidence+PipeWire_WirePlumber",
        provider_model: "KDE_backend_selected_by_standard_portals_conf_and_portal_descriptor",
        support_claim: "no_live_support_claim",
        active_gate: "not_started",
        blocker: "current_host_GNOME;KDE_package_service_owner_absent",
    });
    v.push(CompatibilityEntry {
        key: "sway_wlroots",
        desktop: "Sway_wlroots",
        implementation: "complete",
        controlled: "complete",
        live: QualificationState::ControlledOnly,
        prerequisite: "real_Sway_Wayland+wlr_backend_package_service+canonical_WLR_DBus_owner+WLR_passive_routes+Window_capability_evidence+PipeWire_WirePlumber",
        provider_model: "WLR_for_Screenshot_ScreenCast+GTK_fallback_for_FileChooser_Settings",
        support_claim: "no_live_support_claim",
        active_gate: "not_started",
        blocker: "current_host_GNOME;WLR_package_service_owner_absent",
    });
    v.push(CompatibilityEntry {
        key: "hyprland",
        desktop: "Hyprland",
        implementation: "complete",
        controlled: "complete",
        live: QualificationState::ControlledOnly,
        prerequisite: "real_Hyprland_Wayland+Hyprland_backend_package_service+canonical_Hyprland_DBus_owner+Hyprland_passive_routes+capability_evidence+PipeWire_WirePlumber",
        provider_model: "Hyprland_for_Screenshot_ScreenCast+GTK_fallback_for_FileChooser_Settings",
        support_claim: "no_live_support_claim",
        active_gate: "not_started",
        blocker: "current_host_GNOME;Hyprland_session_package_service_owner_absent",
    });
    v.push(CompatibilityEntry {
        key: "niri",
        desktop: "Niri",
        implementation: "complete",
        controlled: "complete",
        live: QualificationState::ControlledOnly,
        prerequisite: "real_Niri_Wayland+upstream_shaped_effective_niri_portals_conf+healthy_GNOME_GTK_services+canonical_GNOME_GTK_DBus_owners+expected_mixed_routes+capability_evidence+PipeWire_WirePlumber",
        provider_model: "GNOME_capture+GTK_fallback;no_Niri_specific_backend",
        support_claim: "no_live_support_claim",
        active_gate: "not_started",
        blocker: "current_host_GNOME;real_Niri_session_absent",
    });
    v
}

/// A controlled fixture is never promoted directly to live qualification.
pub fn qualification_transition_allowed(from: QualificationState, to: QualificationState) -> (r: bool)
    ensures
        r == (to == QualificationState::LiveQualified ==> from == QualificationState::LiveQualified),
{
    if to == QualificationState::LiveQualified {
        return from == QualificationState::LiveQualified;
    }
    true
}

} // verus!
