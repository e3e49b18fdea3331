//! The inventory of diagnostic capabilities and their qualification
//! boundary. Controlled fixtures are not claimed as live desktop support.
use vstd::prelude::*;
use crate::text::append;

verus! {

/// One diagnostic capability: where it runs, what it records and how far
/// it is qualified.
#[derive(Debug, Clone, Copy, PartialEq, Eq)]
pub struct DiagnosticCapability {
    pub key: &'static str,
    pub runtime: &'static str,
    pub snapshot: &'static str,
    pub entry_point: &'static str,
    pub contract: &'static str,
    pub implementation: &'static str,
    pub controlled: &'static str,
    pub qualification: &'static str,
    pub blocker: &'static str,
}

impl DiagnosticCapability {
    pub open spec fn doc_row_spec(self) -> Seq<char> {
        self.key@ + "|runtime="@ + self.runtime@ + "|snapshot="@ + self.snapshot@ + "|entry_point="@ + self.entry_point@
            + "|contract="@ + self.contract@ + "|implementation="@ + self.implementation@ + "|controlled="@ + self.controlled@
            + "|qualification="@ + self.qualification@ + "|blocker="@ + self.blocker@
    }

    /// Stable machine-readable row mirrored in the roadmap contract block.
    pub fn doc_row(self) -> (r: String)
        ensures
            r@ == self.doc_row_spec(),
    {
        let mut r = self.key.to_owned();
        append(&mut r, "|runtime=");
        append(&mut r, self.runtime);
        append(&mut r, "|snapshot=");
        append(&mut r, self.snapshot);
        append(&mut r, "|entry_point=");
        append(&mut r, self.entry_point);
        append(&mut r, "|contract=");
        append(&mut r, self.contract);
        append(&mut r, "|implementation=");
        append(&mut r, self.implementation);
        append(&mut r, "|controlled=");
        append(&mut r, self.controlled);
        append(&mut r, "|qualification=");
        append(&mut r, self.qualification);
        append(&mut r, "|blocker=");
        append(&mut r, self.blocker);
        r
    }
}

/// The complete diagnostic capability inventory, in stable order.
pub fn diagnostic_capabilities() -> (v: Vec<DiagnosticCapability>)
    ensures
        v@.len() == 7,
{
    let mut v: Vec<DiagnosticCapability> = Vec::new();
    v.push(DiagnosticCapability {
        key: "portal_routing",
        runtime: "portal_config+portal_files+resolver_portal_routes",
        snapshot: "portal_config+portal_backends+portal_routes",
        entry_point: "default_check+check_portal+portal_list_routes_explain",
        contract: "CFG_XDP_findings",
        implementation: "complete",
        controlled: "complete",
        qualification: "baseline_live;expanded_desktops_controlled_only",
        blocker: "none",
    });
    v.push(DiagnosticCapability {
        key: "environment_activation",
        runtime: "environment+activation_environment",
        snapshot: "session+environment",
        entry_point: "default_check+check_environment",
        contract: "ENV001_ENV004_findings",
        implementation: "complete",
        controlled: "complete",
        qualification: "baseline_live;expanded_desktops_controlled_only",
        blocker: "none",
    });
    v.push(DiagnosticCapability {
        key: "dbus_runtime",
        runtime: "dbus+rules_dbus",
        snapshot: "dbus",
        entry_point: "default_check+check_portal",
        contract: "DBUS001_DBUS002_XDP001_XDP002_findings",
        implementation: "complete",
        controlled: "complete",
        qualification: "baseline_live;expanded_desktops_controlled_only",
        blocker: "none",
    });
    v.push(DiagnosticCapability {
        key: "systemd_user_services",
        runtime: "systemd_user+rules_dbus",
        snapshot: "services",
        entry_point: "default_check+check_portal+verbose_runtime",
        contract: "DBUS002_XDP002_findings",
        implementation: "complete",
        controlled: "complete",
        qualification: "baseline_live;expanded_desktops_controlled_only",
        blocker: "none",
    });
    v.push(DiagnosticCapability {
        key: "pipewire_wireplumber",
        runtime: "pipewire+rules_pipewire",
        snapshot: "pipewire+wireplumber",
        entry_point: "default_check+check_pipewire+report",
        contract: "PW001_PW003_SC001_SC002_findings",
        implementation: "complete",
        controlled: "complete",
        qualification: "baseline_live;expanded_desktops_controlled_only",
        blocker: "none",
    });
    v.push(DiagnosticCapability {
        key: "journal_evidence",
        runtime: "journal+report_redaction",
        snapshot: "journal",
        entry_point: "journal_opt_in+report",
        contract: "sanitized_supporting_evidence_for_PW_SC",
        implementation: "complete",
        controlled: "complete",
        qualification: "baseline_live_opt_in;not_a_provider_gate",
        blocker: "none",
    });
    v.push(DiagnosticCapability {
        key: "active_core_probes",
        runtime: "filechooser+screenshot+screencast_internal",
        snapshot: "standalone_ProbeResult_v1",
        entry_point: "explicit_filechooser_screenshot;internal_screencast",
        contract: "ProbeResult_v1",
        implementation: "complete",
        controlled: "complete",
        qualification: "FileChooser_live;Screenshot_ScreenCast_external",
        blocker: "GNOME_Screenshot_provider;ScreenCast_Window_capability",
    });
    v
}

} // verus!
