use vstd::prelude::*;

verus! {

/// The operating system `install-service` runs on.
#[derive(Debug, Clone, Copy, PartialEq, Eq, Structural)]
pub enum Platform {
    Linux,
    Windows,
    MacOs,
    Other,
}

/// What `install-service` does on a platform.
#[derive(Debug, Clone, Copy, PartialEq, Eq, Structural)]
pub enum ServicePlan {
    /// Write a systemd unit file.
    WriteUnit,
    /// Refuse: systemd units are not supported here.
    Unsupported,
    /// Do nothing beyond saying so.
    Nothing,
}

/// systemd units are written on Linux only; Windows and macOS are refused,
/// other systems are left alone.
pub fn service_plan(platform: Platform) -> (plan: ServicePlan)
    ensures
        plan == (match platform {
            Platform::Linux => ServicePlan::WriteUnit,
            Platform::Windows | Platform::MacOs => ServicePlan::Unsupported,
            Platform::Other => ServicePlan::Nothing,
        }),
{
    match platform {
        Platform::Linux => ServicePlan::WriteUnit,
        Platform::Windows => ServicePlan::Unsupported,
        Platform::MacOs => ServicePlan::Unsupported,
        Platform::Other => ServicePlan::Nothing,
    }
}

/// The text of the systemd unit that runs `exec_path web` from `work_dir`,
/// listening on 127.0.0.1:9527.
pub fn service_unit(exec_path: &str, work_dir: &str) -> (text: String)
    ensures
        text@ == "[Unit]\nDescription=Fake CDN Service\nAfter=network.target\n\n[Service]\nType=simple\nWorkingDirectory="@
            + work_dir@ + "\nExecStart="@ + exec_path@ + " web --listen 127.0.0.1:9527\nRestart=on-failure\n\n[Install]\nWantedBy=multi-user.target\n"@,
{
    let mut text = String::from_str(
        "[Unit]\nDescription=Fake CDN Service\nAfter=network.target\n\n[Service]\nType=simple\nWorkingDirectory=",
    );
    text.append(work_dir);
    text.append("\nExecStart=");
    text.append(exec_path);
    text.append(" web --listen 127.0.0.1:9527\nRestart=on-failure\n\n[Install]\nWantedBy=multi-user.target\n");
    text
}

} // verus!
