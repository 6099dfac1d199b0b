use finick::about::{
    about_info, architecture_text, hostname_text, kernel_text, memory_text, nonblank_output, os_version_text,
    uptime_from_secs, uptime_text, AboutInfo, AboutSources,
};

#[test]
fn hostname_falls_back() {
    assert_eq!(hostname_text(Some(" box \n"), Some("file")), "box");
    assert_eq!(hostname_text(Some("  "), Some(" fromfile\n")), "fromfile");
    assert_eq!(hostname_text(None, Some("  ")), "");
    assert_eq!(hostname_text(None, None), "finick-station");
}

#[test]
fn os_version_from_release() {
    let rel = "NAME=NixOS\nPRETTY_NAME=\"NixOS 24.11 (Vicuna)\"\nVERSION=\"24.11 (Vicuna)\"\n";
    assert_eq!(os_version_text(Some(rel), None), "NixOS 24.11 (Vicuna)");
    let rel2 = "PRETTY_NAME=\"Finick\"\nVERSION=\"1.2\"\n";
    assert_eq!(os_version_text(Some(rel2), None), "Finick (1.2)");
    assert_eq!(os_version_text(Some("VERSION=3\n"), None), "Finick OS 3");
    assert_eq!(os_version_text(Some("ID=x\n"), Some("GNU/Linux\n")), "Finick OS (GNU/Linux)");
    assert_eq!(os_version_text(None, None), "Finick OS 1.0 (Rolling)");
    assert_eq!(os_version_text(Some("PRETTY_NAME=PRETTY_NAME=\"X\"\n"), None), "X");
}

#[test]
fn kernel_and_arch_defaults() {
    assert_eq!(kernel_text(Some("Linux 6.9.1\n")), "Linux 6.9.1");
    assert_eq!(kernel_text(None), "Linux");
    assert_eq!(architecture_text(Some("")), "x86_64");
    assert_eq!(architecture_text(Some("aarch64\n")), "aarch64");
    assert_eq!(nonblank_output(Some(" \t")), None);
}

#[test]
fn uptime_words() {
    assert_eq!(uptime_from_secs(59), "0 mins");
    assert_eq!(uptime_from_secs(3 * 3600 + 5 * 60 + 7), "3 hours, 5 mins");
    assert_eq!(uptime_from_secs(2 * 86400 + 3600 + 60), "2 days, 1 hours, 1 mins");
    assert_eq!(uptime_text(Some("up 2 hours, 3 minutes\n"), Some(5)), "2 hours, 3 minutes");
    assert_eq!(uptime_text(Some(" \n"), Some(600)), "10 mins");
    assert_eq!(uptime_text(Some("up \n"), Some(600)), "up");
    assert_eq!(uptime_text(None, None), "Unknown");
}

#[test]
fn memory_from_free() {
    let out = "               total        used        free\nMem:            31Gi        12Gi       9.0Gi\nSwap: 0 0 0\n";
    assert_eq!(memory_text(Some(out)), "31Gi RAM");
    assert_eq!(memory_text(Some("only one line\n")), "Unknown");
    assert_eq!(memory_text(None), "Unknown");
}

#[test]
fn about_page_assembles() {
    let d = AboutInfo::default();
    assert_eq!(d.kernel, "Linux 6.12.0");
    let src = AboutSources {
        hostname: Some("host\n"),
        hostname_file: None,
        os_release: None,
        uname_o: Some("GNU/Linux"),
        uname_sr: None,
        uptime_p: None,
        uptime_secs: Some(90000),
        uname_m: Some("riscv64"),
        free_h: None,
    };
    let a = about_info(&src);
    assert_eq!(a.hostname, "host");
    assert_eq!(a.os_version, "Finick OS (GNU/Linux)");
    assert_eq!(a.kernel, "Linux");
    assert_eq!(a.uptime, "1 days, 1 hours, 0 mins");
    assert_eq!(a.architecture, "riscv64");
    assert_eq!(a.memory, "Unknown");
}
