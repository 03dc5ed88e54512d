use language_revamp::error::ToolchainError;
use language_revamp::go::{go_install_plan, go_uninstall_paths};
use language_revamp::java::{
    java_cleanup_paths, java_install_plan, java_version_command, java_wmic_uninstall_command,
};
use language_revamp::nodejs::{
    node_install_plan, node_msi_uninstall_command, node_uninstall_paths, npm_cleanup_paths,
    nvm_install_command, nvm_probe_paths, nvm_use_command,
};
use language_revamp::python::{
    path_query_program, pip_install_command, pip_update_command, python_install_commands,
    python_update_commands,
};
use language_revamp::rust::{rust_install_command, rustup_query_command, rustup_update_command};
use language_revamp::OS;

fn args(v: &[&str]) -> Vec<String> {
    v.iter().map(|s| s.to_string()).collect()
}

#[test]
fn unknown_platform_is_refused_before_any_work() {
    assert!(matches!(
        go_install_plan("go1.21.0", OS::Unknown),
        Err(ToolchainError::UnsupportedPlatform)
    ));
    assert!(matches!(
        node_install_plan("20.10.0", OS::Unknown),
        Err(ToolchainError::UnsupportedPlatform)
    ));
    assert!(matches!(
        java_install_plan("21", OS::Unknown),
        Err(ToolchainError::UnsupportedPlatform)
    ));
    assert!(matches!(
        go_uninstall_paths(OS::Unknown),
        Err(ToolchainError::UnsupportedPlatform)
    ));
    assert!(matches!(
        python_update_commands(OS::Unknown),
        Err(ToolchainError::UnsupportedPlatform)
    ));
}

#[test]
fn go_plan_on_linux_downloads_and_extracts() {
    let plan = go_install_plan("go1.21.0", OS::Linux).unwrap();
    assert_eq!(plan.url, "https://go.dev/dl/go1.21.0.linux-amd64.tar.gz");
    assert_eq!(plan.artifact, "go.tar.gz");
    assert_eq!(plan.commands, vec![args(&[
        "sudo", "tar", "-C", "/usr/local", "-xzf", "go.tar.gz"
    ])]);
}

#[test]
fn go_plan_on_windows_runs_the_silent_installer() {
    let plan = go_install_plan("go1.21.0", OS::Windows).unwrap();
    assert_eq!(plan.url, "https://go.dev/dl/go1.21.0.windows-amd64.msi");
    assert_eq!(plan.artifact, "go-installer.msi");
    assert_eq!(plan.commands, vec![args(&[
        "msiexec", "/i", "go-installer.msi", "/quiet", "/norestart"
    ])]);
}

#[test]
fn go_plan_on_macos_uses_the_darwin_archive() {
    let plan = go_install_plan("go1.21.0", OS::MacOS).unwrap();
    assert_eq!(plan.url, "https://go.dev/dl/go1.21.0.darwin-amd64.tar.gz");
    assert_eq!(plan.artifact, "go.tar.gz");
}

#[test]
fn go_uninstall_candidates_are_platform_conventional() {
    assert_eq!(
        go_uninstall_paths(OS::Windows).unwrap(),
        args(&["C:\\Program Files\\Go", "C:\\Go"])
    );
    assert_eq!(
        go_uninstall_paths(OS::Linux).unwrap(),
        args(&["/usr/local/go", "$HOME/go"])
    );
    assert_eq!(
        go_uninstall_paths(OS::MacOS).unwrap(),
        args(&["/usr/local/go", "/opt/go", "$HOME/go"])
    );
}

#[test]
fn node_plan_on_linux_extracts_and_symlinks() {
    let plan = node_install_plan("20.10.0", OS::Linux).unwrap();
    assert_eq!(
        plan.url,
        "https://nodejs.org/dist/v20.10.0/node-v20.10.0-linux-x64.tar.gz"
    );
    assert_eq!(plan.artifact, "node.tar.gz");
    assert_eq!(plan.commands, vec![
        args(&["sudo", "tar", "-C", "/usr/local", "-xzf", "node.tar.gz"]),
        args(&[
            "sudo",
            "ln",
            "-sf",
            "/usr/local/node-v20.10.0-linux-x64/bin/node",
            "/usr/local/bin/node"
        ]),
        args(&[
            "sudo",
            "ln",
            "-sf",
            "/usr/local/node-v20.10.0-linux-x64/bin/npm",
            "/usr/local/bin/npm"
        ]),
    ]);
}

#[test]
fn node_plan_on_windows_runs_the_silent_installer() {
    let plan = node_install_plan("20.10.0", OS::Windows).unwrap();
    assert_eq!(plan.url, "https://nodejs.org/dist/v20.10.0/node-v20.10.0-x64.msi");
    assert_eq!(plan.artifact, "node-installer.msi");
    assert_eq!(plan.commands, vec![args(&[
        "msiexec",
        "/i",
        "node-installer.msi",
        "/quiet",
        "/norestart"
    ])]);
}

#[test]
fn node_uninstall_candidates_derive_from_program_files() {
    assert_eq!(
        node_uninstall_paths(OS::Windows, "C:\\Program Files").unwrap(),
        args(&[
            "C:\\Program Files\\nodejs",
            "C:\\nodejs",
            "C:\\Program Files\\nodejs",
            "C:\\Program Files\\Node"
        ])
    );
    assert_eq!(
        node_uninstall_paths(OS::Linux, "").unwrap(),
        args(&["/usr/local/node", "/usr/local/bin/node", "/usr/bin/node", "/opt/node"])
    );
}

#[test]
fn npm_cleanup_paths_derive_from_home() {
    assert_eq!(npm_cleanup_paths("C:\\Users\\me"), args(&[
        "C:\\Users\\me\\AppData\\Roaming\\npm",
        "C:\\Users\\me\\AppData\\Roaming\\npm-cache"
    ]));
}

#[test]
fn node_msi_uninstall_queries_the_product_table() {
    assert_eq!(node_msi_uninstall_command(), args(&[
        "wmic", "product", "where", "name='Node.js'", "call", "uninstall"
    ]));
}

#[test]
fn nvm_paths_and_commands_are_exact() {
    assert_eq!(nvm_probe_paths("/home/me"), args(&[
        "/home/me/.nvm/nvm.sh",
        "/home/me\\AppData\\Roaming\\nvm"
    ]));
    assert_eq!(nvm_install_command("20.10.0"), args(&["nvm", "install", "20.10.0"]));
    assert_eq!(nvm_use_command("20.10.0"), args(&["nvm", "use", "20.10.0"]));
}

#[test]
fn java_plan_on_linux_extracts_and_symlinks() {
    let plan = java_install_plan("21", OS::Linux).unwrap();
    assert_eq!(
        plan.url,
        "https://github.com/adoptium/temurin21-binaries/releases/download/jdk-21%2B37/OpenJDK21U-jdk_x64_linux_hotspot_21u37.tar.gz"
    );
    assert_eq!(plan.artifact, "java.tar.gz");
    assert_eq!(plan.commands, vec![
        args(&["sudo", "tar", "-C", "/usr/local", "-xzf", "java.tar.gz"]),
        args(&["sudo", "ln", "-sf", "/usr/local/jdk-21+37/bin/java", "/usr/local/bin/java"]),
    ]);
}

#[test]
fn java_plan_on_windows_runs_the_silent_installer() {
    let plan = java_install_plan("21", OS::Windows).unwrap();
    assert_eq!(
        plan.url,
        "https://github.com/adoptium/temurin21-binaries/releases/download/jdk-21%2B37/OpenJDK21U-jdk_x64_windows_hotspot_21u37.msi"
    );
    assert_eq!(plan.artifact, "java-installer.msi");
}

#[test]
fn java_version_query_goes_through_the_shell_on_windows() {
    assert_eq!(
        java_version_command(OS::Windows).unwrap(),
        args(&["cmd", "/C", "java", "-version"])
    );
    assert_eq!(java_version_command(OS::Linux).unwrap(), args(&["java", "-version"]));
    assert!(matches!(
        java_version_command(OS::Unknown),
        Err(ToolchainError::ExecutionFailed)
    ));
}

#[test]
fn java_uninstall_queries_and_cleanup_paths_are_exact() {
    assert_eq!(java_wmic_uninstall_command(), args(&[
        "wmic", "product", "where", "name like 'Java%'", "call", "uninstall"
    ]));
    assert_eq!(
        java_cleanup_paths(OS::Windows, "C:\\Program Files").unwrap(),
        args(&["C:\\Program Files\\Java", "C:\\Program Files\\Java"])
    );
    assert_eq!(
        java_cleanup_paths(OS::MacOS, "").unwrap(),
        args(&["/usr/local/jdk-*", "/usr/local/bin/java"])
    );
}

#[test]
fn python_update_falls_back_from_conda_to_winget_on_windows() {
    assert_eq!(python_update_commands(OS::Windows).unwrap(), vec![
        args(&["conda", "update", "python", "-y"]),
        args(&["winget", "install", "--id", "Python.Python.3", "--source", "winget"]),
    ]);
    assert_eq!(python_update_commands(OS::Linux).unwrap(), vec![args(&[
        "sudo", "apt", "update", "python3"
    ])]);
    assert_eq!(python_update_commands(OS::MacOS).unwrap(), vec![args(&[
        "brew", "upgrade", "python"
    ])]);
}

#[test]
fn python_install_commands_are_exact() {
    assert_eq!(python_install_commands(OS::Windows).unwrap(), vec![
        args(&["conda", "install", "python", "-y"]),
        args(&["winget", "install", "--id", "Python.Python.3", "--source", "winget"]),
    ]);
    assert_eq!(python_install_commands(OS::Linux).unwrap(), vec![args(&[
        "sudo", "apt", "install", "python3", "-y"
    ])]);
    assert_eq!(python_install_commands(OS::MacOS).unwrap(), vec![args(&[
        "brew", "install", "python"
    ])]);
}

#[test]
fn pip_commands_route_through_conda_where_available() {
    assert_eq!(pip_update_command(true), args(&[
        "conda", "run", "-n", "base", "python", "-m", "pip", "install", "--upgrade", "pip"
    ]));
    assert_eq!(pip_update_command(false), args(&[
        "python", "-m", "pip", "install", "--upgrade", "pip"
    ]));
    assert_eq!(pip_install_command(true), args(&[
        "conda", "run", "-n", "base", "python", "-m", "ensurepip", "--upgrade"
    ]));
    assert_eq!(pip_install_command(false), args(&[
        "python", "-m", "ensurepip", "--upgrade"
    ]));
}

#[test]
fn path_query_program_is_platform_shaped() {
    assert_eq!(path_query_program(OS::Windows), "where");
    assert_eq!(path_query_program(OS::Linux), "which");
    assert_eq!(path_query_program(OS::Unknown), "which");
}

#[test]
fn rust_commands_are_exact() {
    assert_eq!(rustup_query_command(), args(&["rustup", "show", "active-toolchain"]));
    assert_eq!(rustup_update_command(), args(&["rustup", "update", "stable"]));
    assert_eq!(rust_install_command(OS::Windows), args(&[
        "winget", "install", "--id", "Rustlang.Rustup"
    ]));
    assert_eq!(rust_install_command(OS::Linux), args(&[
        "sh",
        "-c",
        "curl --proto '=https' --tlsv1.2 -sSf https://sh.rustup.rs | sh -s -- -y"
    ]));
}
