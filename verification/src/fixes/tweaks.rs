//! The registry operations of each debloat step, hive by hive.
use vstd::prelude::*;
use crate::fixes::registry::{op_views, HiveOp, HiveOpView};
use crate::text::{owned, str_views, views};

verus! {

/// The Microsoft Edge removal operations on the SOFTWARE hive.
pub open spec fn edge_software_ops() -> Seq<HiveOpView> {
    seq![
        HiveOpView::DeleteKey("Microsoft\\EdgeUpdate"@),
        HiveOpView::DeleteKey("Microsoft\\Windows\\CurrentVersion\\Uninstall\\Microsoft Edge"@),
        HiveOpView::DeleteKey("Microsoft\\Active Setup\\Installed Components\\{9459C573-B17A-45AE-9F64-1857B5D58CEE}"@),
        HiveOpView::DeleteKey("WOW6432Node\\Microsoft\\Edge"@),
        HiveOpView::DeleteKey("WOW6432Node\\Microsoft\\EdgeUpdate"@),
        HiveOpView::DeleteKey("WOW6432Node\\Microsoft\\Windows\\CurrentVersion\\Uninstall\\Microsoft Edge"@),
        HiveOpView::DeleteKey("WOW6432Node\\Microsoft\\Windows\\CurrentVersion\\Uninstall\\Microsoft Edge Update"@),
        HiveOpView::SetDword("Microsoft\\MicrosoftEdge\\Main"@, "AllowPrelaunch"@, 1),
        HiveOpView::SetDword("Policies\\Microsoft\\MicrosoftEdge\\Main"@, "AllowPrelaunch"@, 1),
        HiveOpView::SetDword("Microsoft\\MicrosoftEdge\\TabPreloader"@, "AllowTabPreloading"@, 1),
        HiveOpView::SetDword("Policies\\Microsoft\\MicrosoftEdge\\TabPreloader"@, "AllowTabPreloading"@, 1),
        HiveOpView::SetDword("Policies\\Microsoft\\EdgeUpdate"@, "UpdateDefault"@, 0),
        HiveOpView::SetDword("Microsoft\\EdgeUpdate"@, "DoNotUpdateToEdgeWithChromium"@, 1),
        HiveOpView::SetDword("Microsoft\\EdgeUpdate"@, "UpdaterExperimentationAndConfigurationServiceControl"@, 1),
        HiveOpView::SetDword("Microsoft\\EdgeUpdate"@, "InstallDefault"@, 1),
        HiveOpView::SetDword("Policies\\Microsoft\\EdgeUpdate"@, "DoNotUpdateToEdgeWithChromium"@, 1),
        HiveOpView::SetDword("Policies\\Microsoft\\EdgeUpdate"@, "UpdaterExperimentationAndConfigurationServiceControl"@, 1),
        HiveOpView::SetDword("Policies\\Microsoft\\EdgeUpdate"@, "InstallDefault"@, 1),
        HiveOpView::SetDword("WOW6432Node\\Microsoft\\EdgeUpdate"@, "DoNotUpdateToEdgeWithChromium"@, 1),
        HiveOpView::SetDword("WOW6432Node\\Microsoft\\EdgeUpdate"@, "UpdaterExperimentationAndConfigurationServiceControl"@, 1),
        HiveOpView::SetDword("WOW6432Node\\Microsoft\\EdgeUpdate"@, "InstallDefault"@, 1),
    ]
}

/// Builds [`edge_software_ops`].
pub fn edge_software_ops_exec() -> (r: Vec<HiveOp>)
    ensures
        op_views(r@) == edge_software_ops(),
{
    let r: Vec<HiveOp> = vec![
        HiveOp::DeleteKey(owned("Microsoft\\EdgeUpdate")),
        HiveOp::DeleteKey(owned("Microsoft\\Windows\\CurrentVersion\\Uninstall\\Microsoft Edge")),
        HiveOp::DeleteKey(owned("Microsoft\\Active Setup\\Installed Components\\{9459C573-B17A-45AE-9F64-1857B5D58CEE}")),
        HiveOp::DeleteKey(owned("WOW6432Node\\Microsoft\\Edge")),
        HiveOp::DeleteKey(owned("WOW6432Node\\Microsoft\\EdgeUpdate")),
        HiveOp::DeleteKey(owned("WOW6432Node\\Microsoft\\Windows\\CurrentVersion\\Uninstall\\Microsoft Edge")),
        HiveOp::DeleteKey(owned("WOW6432Node\\Microsoft\\Windows\\CurrentVersion\\Uninstall\\Microsoft Edge Update")),
        HiveOp::SetDword(owned("Microsoft\\MicrosoftEdge\\Main"), owned("AllowPrelaunch"), 1),
        HiveOp::SetDword(owned("Policies\\Microsoft\\MicrosoftEdge\\Main"), owned("AllowPrelaunch"), 1),
        HiveOp::SetDword(owned("Microsoft\\MicrosoftEdge\\TabPreloader"), owned("AllowTabPreloading"), 1),
        HiveOp::SetDword(owned("Policies\\Microsoft\\MicrosoftEdge\\TabPreloader"), owned("AllowTabPreloading"), 1),
        HiveOp::SetDword(owned("Policies\\Microsoft\\EdgeUpdate"), owned("UpdateDefault"), 0),
        HiveOp::SetDword(owned("Microsoft\\EdgeUpdate"), owned("DoNotUpdateToEdgeWithChromium"), 1),
        HiveOp::SetDword(owned("Microsoft\\EdgeUpdate"), owned("UpdaterExperimentationAndConfigurationServiceControl"), 1),
        HiveOp::SetDword(owned("Microsoft\\EdgeUpdate"), owned("InstallDefault"), 1),
        HiveOp::SetDword(owned("Policies\\Microsoft\\EdgeUpdate"), owned("DoNotUpdateToEdgeWithChromium"), 1),
        HiveOp::SetDword(owned("Policies\\Microsoft\\EdgeUpdate"), owned("UpdaterExperimentationAndConfigurationServiceControl"), 1),
        HiveOp::SetDword(owned("Policies\\Microsoft\\EdgeUpdate"), owned("InstallDefault"), 1),
        HiveOp::SetDword(owned("WOW6432Node\\Microsoft\\EdgeUpdate"), owned("DoNotUpdateToEdgeWithChromium"), 1),
        HiveOp::SetDword(owned("WOW6432Node\\Microsoft\\EdgeUpdate"), owned("UpdaterExperimentationAndConfigurationServiceControl"), 1),
        HiveOp::SetDword(owned("WOW6432Node\\Microsoft\\EdgeUpdate"), owned("InstallDefault"), 1),
    ];
    assert(op_views(r@) =~= edge_software_ops());
    r
}

/// The Microsoft Edge removal operations on the SYSTEM hive.
pub open spec fn edge_system_ops() -> Seq<HiveOpView> {
    seq![
        HiveOpView::DeleteKey("CurrentControlSet\\Services\\edgeupdate"@),
        HiveOpView::DeleteKey("CurrentControlSet\\Services\\edgeupdatem"@),
        HiveOpView::DeleteKey("ControlSet001\\Services\\edgeupdate"@),
        HiveOpView::DeleteKey("ControlSet001\\Services\\edgeupdatem"@),
    ]
}

/// Builds [`edge_system_ops`].
pub fn edge_system_ops_exec() -> (r: Vec<HiveOp>)
    ensures
        op_views(r@) == edge_system_ops(),
{
    let r: Vec<HiveOp> = vec![
        HiveOp::DeleteKey(owned("CurrentControlSet\\Services\\edgeupdate")),
        HiveOp::DeleteKey(owned("CurrentControlSet\\Services\\edgeupdatem")),
        HiveOp::DeleteKey(owned("ControlSet001\\Services\\edgeupdate")),
        HiveOp::DeleteKey(owned("ControlSet001\\Services\\edgeupdatem")),
    ];
    assert(op_views(r@) =~= edge_system_ops());
    r
}

/// The Microsoft Edge removal operations on the DEFAULT hive.
pub open spec fn edge_default_ops() -> Seq<HiveOpView> {
    seq![
        HiveOpView::DeleteKey("Software\\Microsoft\\EdgeUpdate"@),
    ]
}

/// Builds [`edge_default_ops`].
pub fn edge_default_ops_exec() -> (r: Vec<HiveOp>)
    ensures
        op_views(r@) == edge_default_ops(),
{
    let r: Vec<HiveOp> = vec![
        HiveOp::DeleteKey(owned("Software\\Microsoft\\EdgeUpdate")),
    ];
    assert(op_views(r@) =~= edge_default_ops());
    r
}

/// The Microsoft Edge removal operations on the default user NTUSER.DAT hive.
pub open spec fn edge_ntuser_ops() -> Seq<HiveOpView> {
    seq![
        HiveOpView::DeleteKey("Software\\Microsoft\\EdgeUpdate"@),
        HiveOpView::SetDword("Software\\Microsoft\\MicrosoftEdge\\Main"@, "AllowPrelaunch"@, 1),
        HiveOpView::SetDword("Software\\Policies\\Microsoft\\MicrosoftEdge\\Main"@, "AllowPrelaunch"@, 1),
        HiveOpView::SetDword("Software\\Microsoft\\MicrosoftEdge\\TabPreloader"@, "AllowTabPreloading"@, 1),
        HiveOpView::SetDword("Software\\Policies\\Microsoft\\MicrosoftEdge\\TabPreloader"@, "AllowTabPreloading"@, 1),
        HiveOpView::SetDword("Software\\Microsoft\\EdgeUpdate"@, "DoNotUpdateToEdgeWithChromium"@, 1),
        HiveOpView::SetDword("Software\\Microsoft\\EdgeUpdate"@, "UpdaterExperimentationAndConfigurationServiceControl"@, 1),
        HiveOpView::SetDword("Software\\Microsoft\\EdgeUpdate"@, "InstallDefault"@, 1),
        HiveOpView::SetDword("Software\\Policies\\Microsoft\\EdgeUpdate"@, "DoNotUpdateToEdgeWithChromium"@, 1),
        HiveOpView::SetDword("Software\\Policies\\Microsoft\\EdgeUpdate"@, "UpdaterExperimentationAndConfigurationServiceControl"@, 1),
        HiveOpView::SetDword("Software\\Policies\\Microsoft\\EdgeUpdate"@, "InstallDefault"@, 1),
    ]
}

/// Builds [`edge_ntuser_ops`].
pub fn edge_ntuser_ops_exec() -> (r: Vec<HiveOp>)
    ensures
        op_views(r@) == edge_ntuser_ops(),
{
    let r: Vec<HiveOp> = vec![
        HiveOp::DeleteKey(owned("Software\\Microsoft\\EdgeUpdate")),
        HiveOp::SetDword(owned("Software\\Microsoft\\MicrosoftEdge\\Main"), owned("AllowPrelaunch"), 1),
        HiveOp::SetDword(owned("Software\\Policies\\Microsoft\\MicrosoftEdge\\Main"), owned("AllowPrelaunch"), 1),
        HiveOp::SetDword(owned("Software\\Microsoft\\MicrosoftEdge\\TabPreloader"), owned("AllowTabPreloading"), 1),
        HiveOp::SetDword(owned("Software\\Policies\\Microsoft\\MicrosoftEdge\\TabPreloader"), owned("AllowTabPreloading"), 1),
        HiveOp::SetDword(owned("Software\\Microsoft\\EdgeUpdate"), owned("DoNotUpdateToEdgeWithChromium"), 1),
        HiveOp::SetDword(owned("Software\\Microsoft\\EdgeUpdate"), owned("UpdaterExperimentationAndConfigurationServiceControl"), 1),
        HiveOp::SetDword(owned("Software\\Microsoft\\EdgeUpdate"), owned("InstallDefault"), 1),
        HiveOp::SetDword(owned("Software\\Policies\\Microsoft\\EdgeUpdate"), owned("DoNotUpdateToEdgeWithChromium"), 1),
        HiveOp::SetDword(owned("Software\\Policies\\Microsoft\\EdgeUpdate"), owned("UpdaterExperimentationAndConfigurationServiceControl"), 1),
        HiveOp::SetDword(owned("Software\\Policies\\Microsoft\\EdgeUpdate"), owned("InstallDefault"), 1),
    ];
    assert(op_views(r@) =~= edge_ntuser_ops());
    r
}

/// The AI component (Copilot, Recall) removal operations on the SOFTWARE hive.
pub open spec fn ai_software_ops() -> Seq<HiveOpView> {
    seq![
        HiveOpView::SetDword("Policies\\Microsoft\\Windows\\Explorer"@, "DisableSearchBoxSuggestions"@, 1),
        HiveOpView::SetDword("Policies\\WindowsNotepad"@, "DisableAIFeatures"@, 1),
        HiveOpView::SetDword("Microsoft\\Windows\\CurrentVersion\\Policies\\Paint"@, "DisableCocreator"@, 1),
        HiveOpView::SetDword("Microsoft\\Windows\\CurrentVersion\\Policies\\Paint"@, "DisableImageCreator"@, 1),
        HiveOpView::SetDword("Microsoft\\Windows\\CurrentVersion\\Policies\\Paint"@, "DisableGenerativeFill"@, 1),
        HiveOpView::SetDword("Microsoft\\Windows\\CurrentVersion\\Policies\\Paint"@, "DisableGenerativeErase"@, 1),
        HiveOpView::SetDword("Microsoft\\Windows\\CurrentVersion\\Policies\\Paint"@, "DisableRemoveBackground"@, 1),
        HiveOpView::SetDword("Policies\\Microsoft\\Windows\\AppPrivacy"@, "LetAppsAccessSystemAIModels"@, 2),
        HiveOpView::SetDword("Policies\\Microsoft\\Windows\\AppPrivacy"@, "LetAppsAccessGenerativeAI"@, 2),
        HiveOpView::SetString("Microsoft\\Windows\\CurrentVersion\\CapabilityAccessManager\\ConsentStore\\generativeAI"@, "Value"@, "Deny"@),
        HiveOpView::SetString("Microsoft\\Windows\\CurrentVersion\\CapabilityAccessManager\\ConsentStore\\systemAIModels"@, "Value"@, "Deny"@),
        HiveOpView::SetDword("Policies\\Microsoft\\Edge"@, "HubsSidebarEnabled"@, 0),
        HiveOpView::SetDword("Policies\\Microsoft\\Edge"@, "CopilotPageContext"@, 0),
        HiveOpView::SetDword("Policies\\Microsoft\\Edge"@, "CopilotCDPPageContext"@, 0),
        HiveOpView::SetDword("Policies\\Microsoft\\Edge"@, "EdgeHistoryAISearchEnabled"@, 0),
        HiveOpView::SetDword("Policies\\Microsoft\\Edge"@, "BuiltInAIAPIsEnabled"@, 0),
        HiveOpView::SetDword("Policies\\Microsoft\\Edge"@, "AIGenThemesEnabled"@, 0),
        HiveOpView::SetDword("Policies\\Microsoft\\Edge"@, "ShareBrowsingHistoryWithCopilotSearchAllowed"@, 0),
        HiveOpView::SetDword("Policies\\Microsoft\\Windows\\WindowsCopilot"@, "TurnOffWindowsCopilot"@, 1),
        HiveOpView::SetDword("Policies\\Microsoft\\Windows\\WindowsAI"@, "DisableAIDataAnalysis"@, 1),
        HiveOpView::SetDword("Policies\\Microsoft\\Windows\\WindowsAI"@, "AllowRecallEnablement"@, 0),
        HiveOpView::SetDword("Policies\\Microsoft\\Windows\\WindowsAI"@, "TurnOffSavingSnapshots"@, 1),
        HiveOpView::SetDword("Policies\\Microsoft\\Windows\\WindowsAI"@, "DisableSettingsAgent"@, 1),
        HiveOpView::SetDword("Policies\\Microsoft\\Windows\\WindowsAI"@, "DisableClickToDo"@, 1),
        HiveOpView::SetDword("Microsoft\\Windows\\Shell\\Copilot"@, "IsCopilotAvailable"@, 0),
        HiveOpView::SetString("Microsoft\\Windows\\Shell\\Copilot"@, "CopilotDisabledReason"@, "FeatureIsDisabled"@),
        HiveOpView::SetString("Microsoft\\Windows\\CurrentVersion\\Policies\\Explorer"@, "SettingsPageVisibility"@, "hide:aicomponents"@),
        HiveOpView::SetDword("Microsoft\\Windows\\CurrentVersion\\Notifications\\Settings"@, "AutoOpenCopilotLargeScreens"@, 0),
        HiveOpView::SetDword("Policies\\Microsoft\\Windows\\Appx\\RemoveDefaultMicrosoftStorePackages"@, "Enabled"@, 1),
        HiveOpView::SetDword("Policies\\Microsoft\\Windows\\Appx\\RemoveDefaultMicrosoftStorePackages\\Microsoft.Copilot_8wekyb3d8bbwe"@, "RemovePackage"@, 1),
        HiveOpView::SetString("Microsoft\\Windows\\CurrentVersion\\RunOnce"@, "DisableWSAIFabricSvc"@, "reg add \"HKLM\\SYSTEM\\CurrentControlSet\\Services\\WSAIFabricSvc\" /v \"Start\" /t REG_DWORD /d \"4\" /f"@),
        HiveOpView::SetString("Microsoft\\Windows\\CurrentVersion\\RunOnce"@, "StopWSAIFabricSvc"@, "net stop WSAIFabricSvc"@),
        HiveOpView::SetString("Microsoft\\Windows\\CurrentVersion\\RunOnce"@, "DisableRecall"@, "dism.exe /online /disable-feature /FeatureName:recall"@),
        HiveOpView::DeleteKey("Microsoft\\Windows NT\\CurrentVersion\\Schedule\\TaskCache\\Tree\\Microsoft\\Windows\\WindowsAI"@),
    ]
}

/// Builds [`ai_software_ops`].
pub fn ai_software_ops_exec() -> (r: Vec<HiveOp>)
    ensures
        op_views(r@) == ai_software_ops(),
{
    let r: Vec<HiveOp> = vec![
        HiveOp::SetDword(owned("Policies\\Microsoft\\Windows\\Explorer"), owned("DisableSearchBoxSuggestions"), 1),
        HiveOp::SetDword(owned("Policies\\WindowsNotepad"), owned("DisableAIFeatures"), 1),
        HiveOp::SetDword(owned("Microsoft\\Windows\\CurrentVersion\\Policies\\Paint"), owned("DisableCocreator"), 1),
        HiveOp::SetDword(owned("Microsoft\\Windows\\CurrentVersion\\Policies\\Paint"), owned("DisableImageCreator"), 1),
        HiveOp::SetDword(owned("Microsoft\\Windows\\CurrentVersion\\Policies\\Paint"), owned("DisableGenerativeFill"), 1),
        HiveOp::SetDword(owned("Microsoft\\Windows\\CurrentVersion\\Policies\\Paint"), owned("DisableGenerativeErase"), 1),
        HiveOp::SetDword(owned("Microsoft\\Windows\\CurrentVersion\\Policies\\Paint"), owned("DisableRemoveBackground"), 1),
        HiveOp::SetDword(owned("Policies\\Microsoft\\Windows\\AppPrivacy"), owned("LetAppsAccessSystemAIModels"), 2),
        HiveOp::SetDword(owned("Policies\\Microsoft\\Windows\\AppPrivacy"), owned("LetAppsAccessGenerativeAI"), 2),
        HiveOp::SetString(owned("Microsoft\\Windows\\CurrentVersion\\CapabilityAccessManager\\ConsentStore\\generativeAI"), owned("Value"), owned("Deny")),
        HiveOp::SetString(owned("Microsoft\\Windows\\CurrentVersion\\CapabilityAccessManager\\ConsentStore\\systemAIModels"), owned("Value"), owned("Deny")),
        HiveOp::SetDword(owned("Policies\\Microsoft\\Edge"), owned("HubsSidebarEnabled"), 0),
        HiveOp::SetDword(owned("Policies\\Microsoft\\Edge"), owned("CopilotPageContext"), 0),
        HiveOp::SetDword(owned("Policies\\Microsoft\\Edge"), owned("CopilotCDPPageContext"), 0),
        HiveOp::SetDword(owned("Policies\\Microsoft\\Edge"), owned("EdgeHistoryAISearchEnabled"), 0),
        HiveOp::SetDword(owned("Policies\\Microsoft\\Edge"), owned("BuiltInAIAPIsEnabled"), 0),
        HiveOp::SetDword(owned("Policies\\Microsoft\\Edge"), owned("AIGenThemesEnabled"), 0),
        HiveOp::SetDword(owned("Policies\\Microsoft\\Edge"), owned("ShareBrowsingHistoryWithCopilotSearchAllowed"), 0),
        HiveOp::SetDword(owned("Policies\\Microsoft\\Windows\\WindowsCopilot"), owned("TurnOffWindowsCopilot"), 1),
        HiveOp::SetDword(owned("Policies\\Microsoft\\Windows\\WindowsAI"), owned("DisableAIDataAnalysis"), 1),
        HiveOp::SetDword(owned("Policies\\Microsoft\\Windows\\WindowsAI"), owned("AllowRecallEnablement"), 0),
        HiveOp::SetDword(owned("Policies\\Microsoft\\Windows\\WindowsAI"), owned("TurnOffSavingSnapshots"), 1),
        HiveOp::SetDword(owned("Policies\\Microsoft\\Windows\\WindowsAI"), owned("DisableSettingsAgent"), 1),
        HiveOp::SetDword(owned("Policies\\Microsoft\\Windows\\WindowsAI"), owned("DisableClickToDo"), 1),
        HiveOp::SetDword(owned("Microsoft\\Windows\\Shell\\Copilot"), owned("IsCopilotAvailable"), 0),
        HiveOp::SetString(owned("Microsoft\\Windows\\Shell\\Copilot"), owned("CopilotDisabledReason"), owned("FeatureIsDisabled")),
        HiveOp::SetString(owned("Microsoft\\Windows\\CurrentVersion\\Policies\\Explorer"), owned("SettingsPageVisibility"), owned("hide:aicomponents")),
        HiveOp::SetDword(owned("Microsoft\\Windows\\CurrentVersion\\Notifications\\Settings"), owned("AutoOpenCopilotLargeScreens"), 0),
        HiveOp::SetDword(owned("Policies\\Microsoft\\Windows\\Appx\\RemoveDefaultMicrosoftStorePackages"), owned("Enabled"), 1),
        HiveOp::SetDword(owned("Policies\\Microsoft\\Windows\\Appx\\RemoveDefaultMicrosoftStorePackages\\Microsoft.Copilot_8wekyb3d8bbwe"), owned("RemovePackage"), 1),
        HiveOp::SetString(owned("Microsoft\\Windows\\CurrentVersion\\RunOnce"), owned("DisableWSAIFabricSvc"), owned("reg add \"HKLM\\SYSTEM\\CurrentControlSet\\Services\\WSAIFabricSvc\" /v \"Start\" /t REG_DWORD /d \"4\" /f")),
        HiveOp::SetString(owned("Microsoft\\Windows\\CurrentVersion\\RunOnce"), owned("StopWSAIFabricSvc"), owned("net stop WSAIFabricSvc")),
        HiveOp::SetString(owned("Microsoft\\Windows\\CurrentVersion\\RunOnce"), owned("DisableRecall"), owned("dism.exe /online /disable-feature /FeatureName:recall")),
        HiveOp::DeleteKey(owned("Microsoft\\Windows NT\\CurrentVersion\\Schedule\\TaskCache\\Tree\\Microsoft\\Windows\\WindowsAI")),
    ];
    assert(op_views(r@) =~= ai_software_ops());
    r
}

/// The AI component (Copilot, Recall) removal operations on the SYSTEM hive.
pub open spec fn ai_system_ops() -> Seq<HiveOpView> {
    seq![
        HiveOpView::SetDword("ControlSet001\\Services\\WSAIFabricSvc"@, "Start"@, 4),
    ]
}

/// Builds [`ai_system_ops`].
pub fn ai_system_ops_exec() -> (r: Vec<HiveOp>)
    ensures
        op_views(r@) == ai_system_ops(),
{
    let r: Vec<HiveOp> = vec![
        HiveOp::SetDword(owned("ControlSet001\\Services\\WSAIFabricSvc"), owned("Start"), 4),
    ];
    assert(op_views(r@) =~= ai_system_ops());
    r
}

/// The AI component (Copilot, Recall) removal operations on the default user NTUSER.DAT hive.
pub open spec fn ai_ntuser_ops() -> Seq<HiveOpView> {
    seq![
        HiveOpView::SetDword("Software\\Microsoft\\Windows\\CurrentVersion\\Explorer\\Advanced"@, "ShowCopilotButton"@, 0),
        HiveOpView::SetDword("Software\\Microsoft\\Windows\\CurrentVersion\\Explorer\\Advanced"@, "Start_AccountNotifications"@, 0),
        HiveOpView::SetDword("Software\\Microsoft\\Windows\\CurrentVersion\\Explorer\\Taskband\\AuxilliaryPins"@, "CopilotPWAPin"@, 0),
        HiveOpView::SetDword("Software\\Microsoft\\Windows\\CurrentVersion\\Explorer\\Taskband\\AuxilliaryPins"@, "RecallPin"@, 0),
        HiveOpView::SetDword("Software\\Microsoft\\Windows\\CurrentVersion\\WindowsCopilot"@, "AllowCopilotRuntime"@, 0),
        HiveOpView::SetDword("Software\\Microsoft\\Windows\\CurrentVersion\\Explorer\\AutoInstalledPWAs"@, "CopilotPWAPreinstallCompleted"@, 1),
        HiveOpView::SetDword("Software\\Microsoft\\Windows\\CurrentVersion\\BackgroundAccessApplications\\Microsoft.Copilot_8wekyb3d8bbwe"@, "Disabled"@, 1),
        HiveOpView::SetDword("Software\\Microsoft\\Windows\\CurrentVersion\\BackgroundAccessApplications\\Microsoft.Copilot_8wekyb3d8bbwe"@, "DisabledByUser"@, 1),
        HiveOpView::SetString("SOFTWARE\\Microsoft\\Windows\\CurrentVersion\\Shell Extensions\\Blocked"@, "{CB3B0003-8088-4EDE-8769-8B354AB2FF8C}"@, "Ask Copilot"@),
        HiveOpView::SetDword("Software\\Policies\\Microsoft\\Windows\\WindowsCopilot"@, "TurnOffWindowsCopilot"@, 1),
        HiveOpView::SetDword("Software\\Policies\\Microsoft\\Windows\\WindowsAI"@, "DisableAIDataAnalysis"@, 1),
        HiveOpView::SetDword("Software\\Policies\\Microsoft\\Windows\\WindowsAI"@, "AllowRecallEnablement"@, 0),
        HiveOpView::SetDword("Software\\Policies\\Microsoft\\Windows\\WindowsAI"@, "TurnOffSavingSnapshots"@, 1),
        HiveOpView::SetDword("Software\\Policies\\Microsoft\\Windows\\WindowsAI"@, "DisableSettingsAgent"@, 1),
        HiveOpView::SetDword("Software\\Policies\\Microsoft\\Windows\\WindowsAI"@, "DisableClickToDo"@, 1),
        HiveOpView::SetDword("Software\\Microsoft\\Windows\\Shell\\Copilot"@, "IsCopilotAvailable"@, 0),
        HiveOpView::SetString("Software\\Microsoft\\Windows\\Shell\\Copilot"@, "CopilotDisabledReason"@, "FeatureIsDisabled"@),
        HiveOpView::SetDword("Software\\Microsoft\\Office\\16.0\\Word\\Options"@, "EnableCopilot"@, 0),
        HiveOpView::SetDword("Software\\Microsoft\\Office\\16.0\\Excel\\Options"@, "EnableCopilot"@, 0),
        HiveOpView::SetDword("Software\\Microsoft\\Office\\16.0\\OneNote\\Options\\Copilot"@, "CopilotEnabled"@, 0),
        HiveOpView::SetDword("Software\\Policies\\Microsoft\\office\\16.0\\common\\privacy"@, "controllerconnectedservicesenabled"@, 2),
    ]
}

/// Builds [`ai_ntuser_ops`].
pub fn ai_ntuser_ops_exec() -> (r: Vec<HiveOp>)
    ensures
        op_views(r@) == ai_ntuser_ops(),
{
    let r: Vec<HiveOp> = vec![
        HiveOp::SetDword(owned("Software\\Microsoft\\Windows\\CurrentVersion\\Explorer\\Advanced"), owned("ShowCopilotButton"), 0),
        HiveOp::SetDword(owned("Software\\Microsoft\\Windows\\CurrentVersion\\Explorer\\Advanced"), owned("Start_AccountNotifications"), 0),
        HiveOp::SetDword(owned("Software\\Microsoft\\Windows\\CurrentVersion\\Explorer\\Taskband\\AuxilliaryPins"), owned("CopilotPWAPin"), 0),
        HiveOp::SetDword(owned("Software\\Microsoft\\Windows\\CurrentVersion\\Explorer\\Taskband\\AuxilliaryPins"), owned("RecallPin"), 0),
        HiveOp::SetDword(owned("Software\\Microsoft\\Windows\\CurrentVersion\\WindowsCopilot"), owned("AllowCopilotRuntime"), 0),
        HiveOp::SetDword(owned("Software\\Microsoft\\Windows\\CurrentVersion\\Explorer\\AutoInstalledPWAs"), owned("CopilotPWAPreinstallCompleted"), 1),
        HiveOp::SetDword(owned("Software\\Microsoft\\Windows\\CurrentVersion\\BackgroundAccessApplications\\Microsoft.Copilot_8wekyb3d8bbwe"), owned("Disabled"), 1),
        HiveOp::SetDword(owned("Software\\Microsoft\\Windows\\CurrentVersion\\BackgroundAccessApplications\\Microsoft.Copilot_8wekyb3d8bbwe"), owned("DisabledByUser"), 1),
        HiveOp::SetString(owned("SOFTWARE\\Microsoft\\Windows\\CurrentVersion\\Shell Extensions\\Blocked"), owned("{CB3B0003-8088-4EDE-8769-8B354AB2FF8C}"), owned("Ask Copilot")),
        HiveOp::SetDword(owned("Software\\Policies\\Microsoft\\Windows\\WindowsCopilot"), owned("TurnOffWindowsCopilot"), 1),
        HiveOp::SetDword(owned("Software\\Policies\\Microsoft\\Windows\\WindowsAI"), owned("DisableAIDataAnalysis"), 1),
        HiveOp::SetDword(owned("Software\\Policies\\Microsoft\\Windows\\WindowsAI"), owned("AllowRecallEnablement"), 0),
        HiveOp::SetDword(owned("Software\\Policies\\Microsoft\\Windows\\WindowsAI"), owned("TurnOffSavingSnapshots"), 1),
        HiveOp::SetDword(owned("Software\\Policies\\Microsoft\\Windows\\WindowsAI"), owned("DisableSettingsAgent"), 1),
        HiveOp::SetDword(owned("Software\\Policies\\Microsoft\\Windows\\WindowsAI"), owned("DisableClickToDo"), 1),
        HiveOp::SetDword(owned("Software\\Microsoft\\Windows\\Shell\\Copilot"), owned("IsCopilotAvailable"), 0),
        HiveOp::SetString(owned("Software\\Microsoft\\Windows\\Shell\\Copilot"), owned("CopilotDisabledReason"), owned("FeatureIsDisabled")),
        HiveOp::SetDword(owned("Software\\Microsoft\\Office\\16.0\\Word\\Options"), owned("EnableCopilot"), 0),
        HiveOp::SetDword(owned("Software\\Microsoft\\Office\\16.0\\Excel\\Options"), owned("EnableCopilot"), 0),
        HiveOp::SetDword(owned("Software\\Microsoft\\Office\\16.0\\OneNote\\Options\\Copilot"), owned("CopilotEnabled"), 0),
        HiveOp::SetDword(owned("Software\\Policies\\Microsoft\\office\\16.0\\common\\privacy"), owned("controllerconnectedservicesenabled"), 2),
    ];
    assert(op_views(r@) =~= ai_ntuser_ops());
    r
}

/// The privacy and performance operations on the SOFTWARE hive.
pub open spec fn privacy_software_ops() -> Seq<HiveOpView> {
    seq![
        HiveOpView::SetDword("Policies\\Microsoft\\Windows\\DataCollection"@, "AllowTelemetry"@, 0),
        HiveOpView::SetDword("Microsoft\\Windows\\CurrentVersion\\ContentDeliveryManager"@, "OemPreInstalledAppsEnabled"@, 0),
        HiveOpView::SetDword("Policies\\Microsoft\\Windows\\CloudContent"@, "DisableWindowsConsumerFeatures"@, 1),
        HiveOpView::SetDword("Policies\\Microsoft\\Windows\\CloudContent"@, "DisableConsumerAccountStateContent"@, 1),
        HiveOpView::SetDword("Policies\\Microsoft\\Windows\\CloudContent"@, "DisableCloudOptimizedContent"@, 1),
        HiveOpView::SetDword("Policies\\Microsoft\\Windows\\CloudContent"@, "DisableSoftLanding"@, 1),
        HiveOpView::SetString("Microsoft\\PolicyManager\\current\\device\\Start"@, "ConfigureStartPins"@, "{\"pinnedList\": [{}]}"@),
        HiveOpView::SetDword("Policies\\Microsoft\\Windows\\AdvertisingInfo"@, "DisabledByGroupPolicy"@, 1),
        HiveOpView::SetDword("Microsoft\\Windows\\CurrentVersion\\Policies\\Explorer"@, "HideSCAMeetNow"@, 1),
        HiveOpView::SetDword("Microsoft\\Windows\\CurrentVersion\\Policies\\Explorer"@, "AllowOnlineTips"@, 0),
        HiveOpView::SetDword("Policies\\Microsoft\\Windows\\Windows Feeds"@, "EnableFeeds"@, 0),
        HiveOpView::SetDword("Policies\\Microsoft\\Windows\\Windows Search"@, "AllowCortana"@, 0),
        HiveOpView::SetDword("Policies\\Microsoft\\MRT"@, "DontOfferThroughWUAU"@, 1),
        HiveOpView::SetDword("Policies\\Microsoft\\Teams"@, "DisableInstallation"@, 1),
        HiveOpView::SetDword("Policies\\Microsoft\\Windows\\Windows Mail"@, "PreventRun"@, 1),
        HiveOpView::SetDword("Microsoft\\BitLocker"@, "PreventDeviceEncryption"@, 1),
        HiveOpView::SetDword("Policies\\Microsoft\\Windows\\OneDrive"@, "DisableLibrariesDefaultSaveToOneDrive"@, 0),
        HiveOpView::SetDword("Policies\\Microsoft\\Windows\\OneDrive"@, "DisableFileSyncNGSC"@, 1),
        HiveOpView::SetDword("Policies\\Microsoft\\OneDrive"@, "KFMBlockOptIn"@, 1),
        HiveOpView::SetDword("Policies\\Microsoft\\Windows\\GameDVR"@, "AllowGameDVR"@, 0),
        HiveOpView::DeleteKey("Microsoft\\WindowsUpdate\\Orchestrator\\UScheduler_Oobe\\DevHomeUpdate"@),
        HiveOpView::SetDword("Microsoft\\Windows\\CurrentVersion\\WindowsUpdate\\Orchestrator\\UScheduler\\DevHomeUpdate"@, "workCompleted"@, 1),
        HiveOpView::DeleteKey("Microsoft\\WindowsUpdate\\Orchestrator\\UScheduler_Oobe\\OutlookUpdate"@),
        HiveOpView::SetDword("Microsoft\\Windows\\CurrentVersion\\WindowsUpdate\\Orchestrator\\UScheduler\\OutlookUpdate"@, "workCompleted"@, 1),
        HiveOpView::SetDword("Microsoft\\Windows\\CurrentVersion\\Communications"@, "ConfigureChatAutoInstall"@, 0),
        HiveOpView::SetDword("Policies\\Microsoft\\Windows\\Windows Chat"@, "ChatIcon"@, 3),
        HiveOpView::SetDword("Policies\\Microsoft\\Windows\\OOBE"@, "DisablePrivacyExperience"@, 1),
        HiveOpView::SetDword("Microsoft\\Windows\\CurrentVersion\\OOBE"@, "BypassNRO"@, 1),
        HiveOpView::SetDword("Microsoft\\Windows\\CurrentVersion\\OOBE"@, "BypassNROGatherOptions"@, 1),
        HiveOpView::DeleteKey("Microsoft\\Windows NT\\CurrentVersion\\Schedule\\TaskCache\\Tree\\Microsoft\\Windows\\Application Experience\\PcaPatchDbTask"@),
        HiveOpView::DeleteKey("Microsoft\\Windows NT\\CurrentVersion\\Schedule\\TaskCache\\Tree\\Microsoft\\Windows\\Application Experience\\MareBackup"@),
        HiveOpView::DeleteKey("Microsoft\\Windows NT\\CurrentVersion\\Schedule\\TaskCache\\Tree\\Microsoft\\Windows\\Application Experience\\ProgramDataUpdater"@),
        HiveOpView::DeleteKey("Microsoft\\Windows NT\\CurrentVersion\\Schedule\\TaskCache\\Tree\\Microsoft\\Windows\\Application Experience\\Microsoft Compatibility Appraiser"@),
        HiveOpView::DeleteKey("Microsoft\\Windows NT\\CurrentVersion\\Schedule\\TaskCache\\Tree\\Microsoft\\Windows\\Application Experience\\Microsoft Compatibility Appraiser Exp"@),
        HiveOpView::DeleteKey("Microsoft\\Windows NT\\CurrentVersion\\Schedule\\TaskCache\\Tree\\Microsoft\\Windows\\Autochk\\Proxy"@),
        HiveOpView::DeleteKey("Microsoft\\Windows NT\\CurrentVersion\\Schedule\\TaskCache\\Tree\\Microsoft\\Windows\\Customer Experience Improvement Program\\Consolidator"@),
        HiveOpView::DeleteKey("Microsoft\\Windows NT\\CurrentVersion\\Schedule\\TaskCache\\Tree\\Microsoft\\Windows\\Customer Experience Improvement Program\\KernelCeipTask"@),
        HiveOpView::DeleteKey("Microsoft\\Windows NT\\CurrentVersion\\Schedule\\TaskCache\\Tree\\Microsoft\\Windows\\Customer Experience Improvement Program\\UsbCeip"@),
        HiveOpView::DeleteKey("Microsoft\\Windows NT\\CurrentVersion\\Schedule\\TaskCache\\Tree\\Microsoft\\Windows\\Customer Experience Improvement Program"@),
    ]
}

/// Builds [`privacy_software_ops`].
pub fn privacy_software_ops_exec() -> (r: Vec<HiveOp>)
    ensures
        op_views(r@) == privacy_software_ops(),
{
    let r: Vec<HiveOp> = vec![
        HiveOp::SetDword(owned("Policies\\Microsoft\\Windows\\DataCollection"), owned("AllowTelemetry"), 0),
        HiveOp::SetDword(owned("Microsoft\\Windows\\CurrentVersion\\ContentDeliveryManager"), owned("OemPreInstalledAppsEnabled"), 0),
        HiveOp::SetDword(owned("Policies\\Microsoft\\Windows\\CloudContent"), owned("DisableWindowsConsumerFeatures"), 1),
        HiveOp::SetDword(owned("Policies\\Microsoft\\Windows\\CloudContent"), owned("DisableConsumerAccountStateContent"), 1),
        HiveOp::SetDword(owned("Policies\\Microsoft\\Windows\\CloudContent"), owned("DisableCloudOptimizedContent"), 1),
        HiveOp::SetDword(owned("Policies\\Microsoft\\Windows\\CloudContent"), owned("DisableSoftLanding"), 1),
        HiveOp::SetString(owned("Microsoft\\PolicyManager\\current\\device\\Start"), owned("ConfigureStartPins"), owned("{\"pinnedList\": [{}]}")),
        HiveOp::SetDword(owned("Policies\\Microsoft\\Windows\\AdvertisingInfo"), owned("DisabledByGroupPolicy"), 1),
        HiveOp::SetDword(owned("Microsoft\\Windows\\CurrentVersion\\Policies\\Explorer"), owned("HideSCAMeetNow"), 1),
        HiveOp::SetDword(owned("Microsoft\\Windows\\CurrentVersion\\Policies\\Explorer"), owned("AllowOnlineTips"), 0),
        HiveOp::SetDword(owned("Policies\\Microsoft\\Windows\\Windows Feeds"), owned("EnableFeeds"), 0),
        HiveOp::SetDword(owned("Policies\\Microsoft\\Windows\\Windows Search"), owned("AllowCortana"), 0),
        HiveOp::SetDword(owned("Policies\\Microsoft\\MRT"), owned("DontOfferThroughWUAU"), 1),
        HiveOp::SetDword(owned("Policies\\Microsoft\\Teams"), owned("DisableInstallation"), 1),
        HiveOp::SetDword(owned("Policies\\Microsoft\\Windows\\Windows Mail"), owned("PreventRun"), 1),
        HiveOp::SetDword(owned("Microsoft\\BitLocker"), owned("PreventDeviceEncryption"), 1),
        HiveOp::SetDword(owned("Policies\\Microsoft\\Windows\\OneDrive"), owned("DisableLibrariesDefaultSaveToOneDrive"), 0),
        HiveOp::SetDword(owned("Policies\\Microsoft\\Windows\\OneDrive"), owned("DisableFileSyncNGSC"), 1),
        HiveOp::SetDword(owned("Policies\\Microsoft\\OneDrive"), owned("KFMBlockOptIn"), 1),
        HiveOp::SetDword(owned("Policies\\Microsoft\\Windows\\GameDVR"), owned("AllowGameDVR"), 0),
        HiveOp::DeleteKey(owned("Microsoft\\WindowsUpdate\\Orchestrator\\UScheduler_Oobe\\DevHomeUpdate")),
        HiveOp::SetDword(owned("Microsoft\\Windows\\CurrentVersion\\WindowsUpdate\\Orchestrator\\UScheduler\\DevHomeUpdate"), owned("workCompleted"), 1),
        HiveOp::DeleteKey(owned("Microsoft\\WindowsUpdate\\Orchestrator\\UScheduler_Oobe\\OutlookUpdate")),
        HiveOp::SetDword(owned("Microsoft\\Windows\\CurrentVersion\\WindowsUpdate\\Orchestrator\\UScheduler\\OutlookUpdate"), owned("workCompleted"), 1),
        HiveOp::SetDword(owned("Microsoft\\Windows\\CurrentVersion\\Communications"), owned("ConfigureChatAutoInstall"), 0),
        HiveOp::SetDword(owned("Policies\\Microsoft\\Windows\\Windows Chat"), owned("ChatIcon"), 3),
        HiveOp::SetDword(owned("Policies\\Microsoft\\Windows\\OOBE"), owned("DisablePrivacyExperience"), 1),
        HiveOp::SetDword(owned("Microsoft\\Windows\\CurrentVersion\\OOBE"), owned("BypassNRO"), 1),
        HiveOp::SetDword(owned("Microsoft\\Windows\\CurrentVersion\\OOBE"), owned("BypassNROGatherOptions"), 1),
        HiveOp::DeleteKey(owned("Microsoft\\Windows NT\\CurrentVersion\\Schedule\\TaskCache\\Tree\\Microsoft\\Windows\\Application Experience\\PcaPatchDbTask")),
        HiveOp::DeleteKey(owned("Microsoft\\Windows NT\\CurrentVersion\\Schedule\\TaskCache\\Tree\\Microsoft\\Windows\\Application Experience\\MareBackup")),
        HiveOp::DeleteKey(owned("Microsoft\\Windows NT\\CurrentVersion\\Schedule\\TaskCache\\Tree\\Microsoft\\Windows\\Application Experience\\ProgramDataUpdater")),
        HiveOp::DeleteKey(owned("Microsoft\\Windows NT\\CurrentVersion\\Schedule\\TaskCache\\Tree\\Microsoft\\Windows\\Application Experience\\Microsoft Compatibility Appraiser")),
        HiveOp::DeleteKey(owned("Microsoft\\Windows NT\\CurrentVersion\\Schedule\\TaskCache\\Tree\\Microsoft\\Windows\\Application Experience\\Microsoft Compatibility Appraiser Exp")),
        HiveOp::DeleteKey(owned("Microsoft\\Windows NT\\CurrentVersion\\Schedule\\TaskCache\\Tree\\Microsoft\\Windows\\Autochk\\Proxy")),
        HiveOp::DeleteKey(owned("Microsoft\\Windows NT\\CurrentVersion\\Schedule\\TaskCache\\Tree\\Microsoft\\Windows\\Customer Experience Improvement Program\\Consolidator")),
        HiveOp::DeleteKey(owned("Microsoft\\Windows NT\\CurrentVersion\\Schedule\\TaskCache\\Tree\\Microsoft\\Windows\\Customer Experience Improvement Program\\KernelCeipTask")),
        HiveOp::DeleteKey(owned("Microsoft\\Windows NT\\CurrentVersion\\Schedule\\TaskCache\\Tree\\Microsoft\\Windows\\Customer Experience Improvement Program\\UsbCeip")),
        HiveOp::DeleteKey(owned("Microsoft\\Windows NT\\CurrentVersion\\Schedule\\TaskCache\\Tree\\Microsoft\\Windows\\Customer Experience Improvement Program")),
    ];
    assert(op_views(r@) =~= privacy_software_ops());
    r
}

/// The privacy and performance operations on the SYSTEM hive.
pub open spec fn privacy_system_ops() -> Seq<HiveOpView> {
    seq![
        HiveOpView::SetDword("ControlSet001\\Services\\dmwappushservice"@, "Start"@, 4),
        HiveOpView::SetDword("ControlSet001\\Services\\BcastDVRUserService"@, "Start"@, 4),
        HiveOpView::SetDword("ControlSet001\\Services\\GameBarPresenceWriter"@, "Start"@, 4),
    ]
}

/// Builds [`privacy_system_ops`].
pub fn privacy_system_ops_exec() -> (r: Vec<HiveOp>)
    ensures
        op_views(r@) == privacy_system_ops(),
{
    let r: Vec<HiveOp> = vec![
        HiveOp::SetDword(owned("ControlSet001\\Services\\dmwappushservice"), owned("Start"), 4),
        HiveOp::SetDword(owned("ControlSet001\\Services\\BcastDVRUserService"), owned("Start"), 4),
        HiveOp::SetDword(owned("ControlSet001\\Services\\GameBarPresenceWriter"), owned("Start"), 4),
    ];
    assert(op_views(r@) =~= privacy_system_ops());
    r
}

/// The privacy and performance operations on the default user NTUSER.DAT hive.
pub open spec fn privacy_ntuser_ops() -> Seq<HiveOpView> {
    seq![
        HiveOpView::SetDword("Software\\Microsoft\\Windows\\CurrentVersion\\ContentDeliveryManager"@, "PreInstalledAppsEnabled"@, 0),
        HiveOpView::SetDword("Software\\Microsoft\\Windows\\CurrentVersion\\ContentDeliveryManager"@, "SilentInstalledAppsEnabled"@, 0),
        HiveOpView::SetDword("Software\\Microsoft\\Windows\\CurrentVersion\\ContentDeliveryManager"@, "SubscribedContentEnabled"@, 0),
        HiveOpView::SetDword("Software\\Microsoft\\Windows\\CurrentVersion\\ContentDeliveryManager"@, "ContentDeliveryAllowed"@, 0),
        HiveOpView::SetDword("Software\\Microsoft\\Windows\\CurrentVersion\\ContentDeliveryManager"@, "PreInstalledAppsEverEnabled"@, 0),
        HiveOpView::SetDword("Software\\Microsoft\\Windows\\CurrentVersion\\ContentDeliveryManager"@, "SoftLandingEnabled"@, 0),
        HiveOpView::SetDword("Software\\Microsoft\\Windows\\CurrentVersion\\ContentDeliveryManager"@, "SystemPaneSuggestionsEnabled"@, 0),
        HiveOpView::SetDword("Software\\Microsoft\\Windows\\CurrentVersion\\ContentDeliveryManager"@, "SubscribedContent-310093Enabled"@, 0),
        HiveOpView::SetDword("Software\\Microsoft\\Windows\\CurrentVersion\\ContentDeliveryManager"@, "SubscribedContent-338387Enabled"@, 0),
        HiveOpView::SetDword("Software\\Microsoft\\Windows\\CurrentVersion\\ContentDeliveryManager"@, "SubscribedContent-338388Enabled"@, 0),
        HiveOpView::SetDword("Software\\Microsoft\\Windows\\CurrentVersion\\ContentDeliveryManager"@, "SubscribedContent-338389Enabled"@, 0),
        HiveOpView::SetDword("Software\\Microsoft\\Windows\\CurrentVersion\\ContentDeliveryManager"@, "SubscribedContent-338393Enabled"@, 0),
        HiveOpView::SetDword("Software\\Microsoft\\Windows\\CurrentVersion\\ContentDeliveryManager"@, "SubscribedContent-353694Enabled"@, 0),
        HiveOpView::SetDword("Software\\Microsoft\\Windows\\CurrentVersion\\ContentDeliveryManager"@, "SubscribedContent-353696Enabled"@, 0),
        HiveOpView::DeleteKey("Software\\Microsoft\\Windows\\CurrentVersion\\ContentDeliveryManager\\Subscriptions"@),
        HiveOpView::DeleteKey("Software\\Microsoft\\Windows\\CurrentVersion\\ContentDeliveryManager\\SuggestedApps"@),
        HiveOpView::SetDword("Software\\Microsoft\\Personalization\\Settings"@, "AcceptedPrivacyPolicy"@, 0),
        HiveOpView::SetDword("Software\\Microsoft\\Windows\\CurrentVersion\\Privacy"@, "TailoredExperiencesWithDiagnosticDataEnabled"@, 0),
        HiveOpView::SetDword("Software\\Microsoft\\Speech_OneCore\\Settings\\OnlineSpeechPrivacy"@, "HasAccepted"@, 0),
        HiveOpView::SetDword("Software\\Microsoft\\InputPersonalization"@, "RestrictImplicitInkCollection"@, 1),
        HiveOpView::SetDword("Software\\Microsoft\\InputPersonalization"@, "RestrictImplicitTextCollection"@, 1),
        HiveOpView::SetDword("Software\\Microsoft\\InputPersonalization\\TrainedDataStore"@, "HarvestContacts"@, 0),
        HiveOpView::SetDword("Software\\Microsoft\\Windows\\CurrentVersion\\AdvertisingInfo"@, "Enabled"@, 0),
        HiveOpView::SetDword("Software\\Microsoft\\Windows\\CurrentVersion\\Explorer\\Advanced"@, "ShowTaskViewButton"@, 0),
        HiveOpView::SetDword("Software\\Microsoft\\Windows\\CurrentVersion\\Explorer\\Advanced"@, "Start_IrisRecommendations"@, 0),
        HiveOpView::SetDword("Software\\Microsoft\\Windows\\CurrentVersion\\Explorer\\HideDesktopIcons\\NewStartPanel"@, "{2cc5ca98-6485-489a-920e-b3e88a6ccce3}"@, 1),
        HiveOpView::SetString("Control Panel\\Mouse"@, "MouseSpeed"@, "0"@),
        HiveOpView::SetString("Control Panel\\Mouse"@, "MouseThreshold1"@, "0"@),
        HiveOpView::SetString("Control Panel\\Mouse"@, "MouseThreshold2"@, "0"@),
        HiveOpView::SetString("Control Panel\\Desktop"@, "MenuShowDelay"@, "200"@),
        HiveOpView::SetDword("Software\\Microsoft\\Windows\\CurrentVersion\\GameDVR"@, "AppCaptureEnabled"@, 0),
        HiveOpView::SetDword("System\\GameConfigStore"@, "GameDVR_Enabled"@, 0),
        HiveOpView::SetDword("Software\\Microsoft\\GameBar"@, "AutoGameModeEnabled"@, 0),
        HiveOpView::DeleteValue("Software\\Microsoft\\Windows\\CurrentVersion\\Run"@, "OneDriveSetup"@),
    ]
}

/// Builds [`privacy_ntuser_ops`].
pub fn privacy_ntuser_ops_exec() -> (r: Vec<HiveOp>)
    ensures
        op_views(r@) == privacy_ntuser_ops(),
{
    let r: Vec<HiveOp> = vec![
        HiveOp::SetDword(owned("Software\\Microsoft\\Windows\\CurrentVersion\\ContentDeliveryManager"), owned("PreInstalledAppsEnabled"), 0),
        HiveOp::SetDword(owned("Software\\Microsoft\\Windows\\CurrentVersion\\ContentDeliveryManager"), owned("SilentInstalledAppsEnabled"), 0),
        HiveOp::SetDword(owned("Software\\Microsoft\\Windows\\CurrentVersion\\ContentDeliveryManager"), owned("SubscribedContentEnabled"), 0),
        HiveOp::SetDword(owned("Software\\Microsoft\\Windows\\CurrentVersion\\ContentDeliveryManager"), owned("ContentDeliveryAllowed"), 0),
        HiveOp::SetDword(owned("Software\\Microsoft\\Windows\\CurrentVersion\\ContentDeliveryManager"), owned("PreInstalledAppsEverEnabled"), 0),
        HiveOp::SetDword(owned("Software\\Microsoft\\Windows\\CurrentVersion\\ContentDeliveryManager"), owned("SoftLandingEnabled"), 0),
        HiveOp::SetDword(owned("Software\\Microsoft\\Windows\\CurrentVersion\\ContentDeliveryManager"), owned("SystemPaneSuggestionsEnabled"), 0),
        HiveOp::SetDword(owned("Software\\Microsoft\\Windows\\CurrentVersion\\ContentDeliveryManager"), owned("SubscribedContent-310093Enabled"), 0),
        HiveOp::SetDword(owned("Software\\Microsoft\\Windows\\CurrentVersion\\ContentDeliveryManager"), owned("SubscribedContent-338387Enabled"), 0),
        HiveOp::SetDword(owned("Software\\Microsoft\\Windows\\CurrentVersion\\ContentDeliveryManager"), owned("SubscribedContent-338388Enabled"), 0),
        HiveOp::SetDword(owned("Software\\Microsoft\\Windows\\CurrentVersion\\ContentDeliveryManager"), owned("SubscribedContent-338389Enabled"), 0),
        HiveOp::SetDword(owned("Software\\Microsoft\\Windows\\CurrentVersion\\ContentDeliveryManager"), owned("SubscribedContent-338393Enabled"), 0),
        HiveOp::SetDword(owned("Software\\Microsoft\\Windows\\CurrentVersion\\ContentDeliveryManager"), owned("SubscribedContent-353694Enabled"), 0),
        HiveOp::SetDword(owned("Software\\Microsoft\\Windows\\CurrentVersion\\ContentDeliveryManager"), owned("SubscribedContent-353696Enabled"), 0),
        HiveOp::DeleteKey(owned("Software\\Microsoft\\Windows\\CurrentVersion\\ContentDeliveryManager\\Subscriptions")),
        HiveOp::DeleteKey(owned("Software\\Microsoft\\Windows\\CurrentVersion\\ContentDeliveryManager\\SuggestedApps")),
        HiveOp::SetDword(owned("Software\\Microsoft\\Personalization\\Settings"), owned("AcceptedPrivacyPolicy"), 0),
        HiveOp::SetDword(owned("Software\\Microsoft\\Windows\\CurrentVersion\\Privacy"), owned("TailoredExperiencesWithDiagnosticDataEnabled"), 0),
        HiveOp::SetDword(owned("Software\\Microsoft\\Speech_OneCore\\Settings\\OnlineSpeechPrivacy"), owned("HasAccepted"), 0),
        HiveOp::SetDword(owned("Software\\Microsoft\\InputPersonalization"), owned("RestrictImplicitInkCollection"), 1),
        HiveOp::SetDword(owned("Software\\Microsoft\\InputPersonalization"), owned("RestrictImplicitTextCollection"), 1),
        HiveOp::SetDword(owned("Software\\Microsoft\\InputPersonalization\\TrainedDataStore"), owned("HarvestContacts"), 0),
        HiveOp::SetDword(owned("Software\\Microsoft\\Windows\\CurrentVersion\\AdvertisingInfo"), owned("Enabled"), 0),
        HiveOp::SetDword(owned("Software\\Microsoft\\Windows\\CurrentVersion\\Explorer\\Advanced"), owned("ShowTaskViewButton"), 0),
        HiveOp::SetDword(owned("Software\\Microsoft\\Windows\\CurrentVersion\\Explorer\\Advanced"), owned("Start_IrisRecommendations"), 0),
        HiveOp::SetDword(owned("Software\\Microsoft\\Windows\\CurrentVersion\\Explorer\\HideDesktopIcons\\NewStartPanel"), owned("{2cc5ca98-6485-489a-920e-b3e88a6ccce3}"), 1),
        HiveOp::SetString(owned("Control Panel\\Mouse"), owned("MouseSpeed"), owned("0")),
        HiveOp::SetString(owned("Control Panel\\Mouse"), owned("MouseThreshold1"), owned("0")),
        HiveOp::SetString(owned("Control Panel\\Mouse"), owned("MouseThreshold2"), owned("0")),
        HiveOp::SetString(owned("Control Panel\\Desktop"), owned("MenuShowDelay"), owned("200")),
        HiveOp::SetDword(owned("Software\\Microsoft\\Windows\\CurrentVersion\\GameDVR"), owned("AppCaptureEnabled"), 0),
        HiveOp::SetDword(owned("System\\GameConfigStore"), owned("GameDVR_Enabled"), 0),
        HiveOp::SetDword(owned("Software\\Microsoft\\GameBar"), owned("AutoGameModeEnabled"), 0),
        HiveOp::DeleteValue(owned("Software\\Microsoft\\Windows\\CurrentVersion\\Run"), owned("OneDriveSetup")),
    ];
    assert(op_views(r@) =~= privacy_ntuser_ops());
    r
}

/// The TPM, Secure Boot and hardware check bypass operations on the SYSTEM hive.
pub open spec fn tpm_system_ops() -> Seq<HiveOpView> {
    seq![
        HiveOpView::SetDword("Setup\\LabConfig"@, "BypassTPMCheck"@, 1),
        HiveOpView::SetDword("Setup\\LabConfig"@, "BypassSecureBootCheck"@, 1),
        HiveOpView::SetDword("Setup\\LabConfig"@, "BypassStorageCheck"@, 1),
        HiveOpView::SetDword("Setup\\LabConfig"@, "BypassCPUCheck"@, 1),
        HiveOpView::SetDword("Setup\\LabConfig"@, "BypassRAMCheck"@, 1),
        HiveOpView::SetDword("Setup\\LabConfig"@, "BypassDiskCheck"@, 1),
        HiveOpView::SetDword("Setup\\MoSetup"@, "AllowUpgradesWithUnsupportedTPMOrCPU"@, 1),
    ]
}

/// Builds [`tpm_system_ops`].
pub fn tpm_system_ops_exec() -> (r: Vec<HiveOp>)
    ensures
        op_views(r@) == tpm_system_ops(),
{
    let r: Vec<HiveOp> = vec![
        HiveOp::SetDword(owned("Setup\\LabConfig"), owned("BypassTPMCheck"), 1),
        HiveOp::SetDword(owned("Setup\\LabConfig"), owned("BypassSecureBootCheck"), 1),
        HiveOp::SetDword(owned("Setup\\LabConfig"), owned("BypassStorageCheck"), 1),
        HiveOp::SetDword(owned("Setup\\LabConfig"), owned("BypassCPUCheck"), 1),
        HiveOp::SetDword(owned("Setup\\LabConfig"), owned("BypassRAMCheck"), 1),
        HiveOp::SetDword(owned("Setup\\LabConfig"), owned("BypassDiskCheck"), 1),
        HiveOp::SetDword(owned("Setup\\MoSetup"), owned("AllowUpgradesWithUnsupportedTPMOrCPU"), 1),
    ];
    assert(op_views(r@) =~= tpm_system_ops());
    r
}

/// The TPM, Secure Boot and hardware check bypass operations on the SOFTWARE hive.
pub open spec fn tpm_software_ops() -> Seq<HiveOpView> {
    seq![
        HiveOpView::SetDword("Microsoft\\Windows\\CurrentVersion\\Policies\\System"@, "HideUnsupportedHardwareNotifications"@, 1),
        HiveOpView::DeleteKey("Microsoft\\Windows NT\\CurrentVersion\\AppCompatFlags\\CompatMarkers"@),
        HiveOpView::DeleteKey("Microsoft\\Windows NT\\CurrentVersion\\AppCompatFlags\\Shared"@),
        HiveOpView::DeleteKey("Microsoft\\Windows NT\\CurrentVersion\\AppCompatFlags\\TargetVersionUpgradeExperienceIndicators"@),
        HiveOpView::SetMultiString("Microsoft\\Windows NT\\CurrentVersion\\AppCompatFlags\\HwReqChk"@, "HwReqChkVars"@, seq!["SQ_SecureBootCapable=TRUE"@, "SQ_SecureBootEnabled=TRUE"@, "SQ_TpmVersion=2"@, "SQ_RamMB=8192"@]),
    ]
}

/// Builds [`tpm_software_ops`].
pub fn tpm_software_ops_exec() -> (r: Vec<HiveOp>)
    ensures
        op_views(r@) == tpm_software_ops(),
{
    let multi0: Vec<String> = vec![owned("SQ_SecureBootCapable=TRUE"), owned("SQ_SecureBootEnabled=TRUE"), owned("SQ_TpmVersion=2"), owned("SQ_RamMB=8192")];
    assert(views(multi0@) =~= seq!["SQ_SecureBootCapable=TRUE"@, "SQ_SecureBootEnabled=TRUE"@, "SQ_TpmVersion=2"@, "SQ_RamMB=8192"@]);
    let r: Vec<HiveOp> = vec![
        HiveOp::SetDword(owned("Microsoft\\Windows\\CurrentVersion\\Policies\\System"), owned("HideUnsupportedHardwareNotifications"), 1),
        HiveOp::DeleteKey(owned("Microsoft\\Windows NT\\CurrentVersion\\AppCompatFlags\\CompatMarkers")),
        HiveOp::DeleteKey(owned("Microsoft\\Windows NT\\CurrentVersion\\AppCompatFlags\\Shared")),
        HiveOp::DeleteKey(owned("Microsoft\\Windows NT\\CurrentVersion\\AppCompatFlags\\TargetVersionUpgradeExperienceIndicators")),
        HiveOp::SetMultiString(owned("Microsoft\\Windows NT\\CurrentVersion\\AppCompatFlags\\HwReqChk"), owned("HwReqChkVars"), multi0),
    ];
    assert(op_views(r@) =~= tpm_software_ops());
    r
}

/// The TPM, Secure Boot and hardware check bypass operations on the DEFAULT hive.
pub open spec fn tpm_default_ops() -> Seq<HiveOpView> {
    seq![
        HiveOpView::SetDword("Control Panel\\UnsupportedHardwareNotificationCache"@, "SV1"@, 0),
        HiveOpView::SetDword("Control Panel\\UnsupportedHardwareNotificationCache"@, "SV2"@, 0),
    ]
}

/// Builds [`tpm_default_ops`].
pub fn tpm_default_ops_exec() -> (r: Vec<HiveOp>)
    ensures
        op_views(r@) == tpm_default_ops(),
{
    let r: Vec<HiveOp> = vec![
        HiveOp::SetDword(owned("Control Panel\\UnsupportedHardwareNotificationCache"), owned("SV1"), 0),
        HiveOp::SetDword(owned("Control Panel\\UnsupportedHardwareNotificationCache"), owned("SV2"), 0),
    ];
    assert(op_views(r@) =~= tpm_default_ops());
    r
}

/// The TPM, Secure Boot and hardware check bypass operations on the default user NTUSER.DAT hive.
pub open spec fn tpm_ntuser_ops() -> Seq<HiveOpView> {
    seq![
        HiveOpView::SetDword("Control Panel\\UnsupportedHardwareNotificationCache"@, "SV1"@, 0),
        HiveOpView::SetDword("Control Panel\\UnsupportedHardwareNotificationCache"@, "SV2"@, 0),
        HiveOpView::SetDword("Software\\Microsoft\\PCHC"@, "UpgradeEligibility"@, 1),
    ]
}

/// Builds [`tpm_ntuser_ops`].
pub fn tpm_ntuser_ops_exec() -> (r: Vec<HiveOp>)
    ensures
        op_views(r@) == tpm_ntuser_ops(),
{
    let r: Vec<HiveOp> = vec![
        HiveOp::SetDword(owned("Control Panel\\UnsupportedHardwareNotificationCache"), owned("SV1"), 0),
        HiveOp::SetDword(owned("Control Panel\\UnsupportedHardwareNotificationCache"), owned("SV2"), 0),
        HiveOp::SetDword(owned("Software\\Microsoft\\PCHC"), owned("UpgradeEligibility"), 1),
    ];
    assert(op_views(r@) =~= tpm_ntuser_ops());
    r
}

/// The Game Bar operations on the SYSTEM hive.
pub open spec fn gamebar_system_ops() -> Seq<HiveOpView> {
    seq![
        HiveOpView::SetDword("ControlSet001\\Services\\xbgm"@, "Start"@, 4),
    ]
}

/// Builds [`gamebar_system_ops`].
pub fn gamebar_system_ops_exec() -> (r: Vec<HiveOp>)
    ensures
        op_views(r@) == gamebar_system_ops(),
{
    let r: Vec<HiveOp> = vec![
        HiveOp::SetDword(owned("ControlSet001\\Services\\xbgm"), owned("Start"), 4),
    ];
    assert(op_views(r@) =~= gamebar_system_ops());
    r
}

} // verus!
verus! {

/// The task cache entries of the telemetry scheduled tasks.
pub open spec fn task_keys() -> Seq<Seq<char>> {
    seq![
        "Microsoft\\Windows NT\\CurrentVersion\\Schedule\\TaskCache\\Tasks\\{780E487D-C62F-4B55-AF84-0E38116AFE07}"@,
        "Microsoft\\Windows NT\\CurrentVersion\\Schedule\\TaskCache\\Tasks\\{FD607F42-4541-418A-B812-05C32EBA8626}"@,
        "Microsoft\\Windows NT\\CurrentVersion\\Schedule\\TaskCache\\Tasks\\{E4FED5BC-D567-4044-9642-2EDADF7DE108}"@,
        "Microsoft\\Windows NT\\CurrentVersion\\Schedule\\TaskCache\\Tasks\\{E292525C-72F1-482C-8F35-C513FAA98DAE}"@,
        "Microsoft\\Windows NT\\CurrentVersion\\Schedule\\TaskCache\\Tasks\\{3047C197-66F1-4523-BA92-6C955FEF9E4E}"@,
        "Microsoft\\Windows NT\\CurrentVersion\\Schedule\\TaskCache\\Tasks\\{A0C71CB8-E8F0-498A-901D-4EDA09E07FF4}"@,
        "Microsoft\\Windows NT\\CurrentVersion\\Schedule\\TaskCache\\Tasks\\{4738DE7A-BCC1-4E2D-B1B0-CADB044BFA81}"@,
        "Microsoft\\Windows NT\\CurrentVersion\\Schedule\\TaskCache\\Tasks\\{6FAC31FA-4A85-4E64-BFD5-2154FF4594B3}"@,
        "Microsoft\\Windows NT\\CurrentVersion\\Schedule\\TaskCache\\Tasks\\{FC931F16-B50A-472E-B061-B6F79A71EF59}"@,
        "Microsoft\\Windows NT\\CurrentVersion\\Schedule\\TaskCache\\Tasks\\{0671EB05-7D95-4153-A32B-1426B9FE61DB}"@,
        "Microsoft\\Windows NT\\CurrentVersion\\Schedule\\TaskCache\\Tasks\\{0600DD45-FAF2-4131-A006-0B17509B9F78}"@,
    ]
}

/// Builds [`task_keys`].
pub fn task_keys_exec() -> (r: Vec<&'static str>)
    ensures
        str_views(r@) == task_keys(),
{
    let r: Vec<&'static str> = vec![
        "Microsoft\\Windows NT\\CurrentVersion\\Schedule\\TaskCache\\Tasks\\{780E487D-C62F-4B55-AF84-0E38116AFE07}",
        "Microsoft\\Windows NT\\CurrentVersion\\Schedule\\TaskCache\\Tasks\\{FD607F42-4541-418A-B812-05C32EBA8626}",
        "Microsoft\\Windows NT\\CurrentVersion\\Schedule\\TaskCache\\Tasks\\{E4FED5BC-D567-4044-9642-2EDADF7DE108}",
        "Microsoft\\Windows NT\\CurrentVersion\\Schedule\\TaskCache\\Tasks\\{E292525C-72F1-482C-8F35-C513FAA98DAE}",
        "Microsoft\\Windows NT\\CurrentVersion\\Schedule\\TaskCache\\Tasks\\{3047C197-66F1-4523-BA92-6C955FEF9E4E}",
        "Microsoft\\Windows NT\\CurrentVersion\\Schedule\\TaskCache\\Tasks\\{A0C71CB8-E8F0-498A-901D-4EDA09E07FF4}",
        "Microsoft\\Windows NT\\CurrentVersion\\Schedule\\TaskCache\\Tasks\\{4738DE7A-BCC1-4E2D-B1B0-CADB044BFA81}",
        "Microsoft\\Windows NT\\CurrentVersion\\Schedule\\TaskCache\\Tasks\\{6FAC31FA-4A85-4E64-BFD5-2154FF4594B3}",
        "Microsoft\\Windows NT\\CurrentVersion\\Schedule\\TaskCache\\Tasks\\{FC931F16-B50A-472E-B061-B6F79A71EF59}",
        "Microsoft\\Windows NT\\CurrentVersion\\Schedule\\TaskCache\\Tasks\\{0671EB05-7D95-4153-A32B-1426B9FE61DB}",
        "Microsoft\\Windows NT\\CurrentVersion\\Schedule\\TaskCache\\Tasks\\{0600DD45-FAF2-4131-A006-0B17509B9F78}",
    ];
    assert(str_views(r@) =~= task_keys());
    r
}

/// The shell folder GUIDs listed under "This PC": Desktop, Documents,
/// Downloads, Music, Pictures, Videos.
pub open spec fn folder_guids() -> Seq<Seq<char>> {
    seq![
        "{B4BFCC3A-DB2C-424C-B029-7FE99A87C641}"@,
        "{d3162b92-9365-467a-956b-92703aca08af}"@,
        "{088e3905-0323-4b02-9826-5d99428e115f}"@,
        "{3dfdf296-dbec-4fb4-81d1-6a3438bcf4de}"@,
        "{24ad3ad4-a569-4530-98e1-ab02f9417aa8}"@,
        "{f86fa3ab-70d2-4fc7-9c99-fcbf05467f3a}"@,
    ]
}

/// Builds [`folder_guids`].
pub fn folder_guids_exec() -> (r: Vec<&'static str>)
    ensures
        str_views(r@) == folder_guids(),
{
    let r: Vec<&'static str> = vec![
        "{B4BFCC3A-DB2C-424C-B029-7FE99A87C641}",
        "{d3162b92-9365-467a-956b-92703aca08af}",
        "{088e3905-0323-4b02-9826-5d99428e115f}",
        "{3dfdf296-dbec-4fb4-81d1-6a3438bcf4de}",
        "{24ad3ad4-a569-4530-98e1-ab02f9417aa8}",
        "{f86fa3ab-70d2-4fc7-9c99-fcbf05467f3a}",
    ];
    assert(str_views(r@) =~= folder_guids());
    r
}

/// The Game Bar URL schemes.
pub open spec fn gamebar_schemes() -> Seq<Seq<char>> {
    seq!["ms-gamebar"@, "ms-gamebarservices"@, "ms-gamingoverlay"@]
}

/// Builds [`gamebar_schemes`].
pub fn gamebar_schemes_exec() -> (r: Vec<&'static str>)
    ensures
        str_views(r@) == gamebar_schemes(),
{
    let r: Vec<&'static str> = vec!["ms-gamebar", "ms-gamebarservices", "ms-gamingoverlay"];
    assert(str_views(r@) =~= gamebar_schemes());
    r
}

} // verus!
