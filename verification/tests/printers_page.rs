use finick::printers::{
    apply_accepting, apply_device_uris, cups_running, default_printer, mark_default, printers_from, printers_info,
    queue_paused, read_jobs, scanners_from, toggle_queue, without_job, PrintJob, PrinterSources, PrintersInfo,
};

#[test]
fn default_destination() {
    assert_eq!(default_printer("system default destination: Office_Laser\n"), "Office_Laser");
    assert_eq!(default_printer("no system default destination\n"), "");
    assert_eq!(default_printer("system default destination: A\nsystem default destination: B \n"), "B");
}

#[test]
fn printers_listed_with_status() {
    let out = "printer Office_Laser is idle.  enabled since Mon\nprinter Lab disabled since Tue -\n\treason unknown\n  printer Desk now printing Desk-12.  enabled\n";
    let ps = printers_from(out, "Office_Laser");
    assert_eq!(ps.len(), 3);
    assert_eq!(ps[0].name, "Office Laser");
    assert_eq!(ps[0].system_name, "Office_Laser");
    assert!(ps[0].is_default);
    assert_eq!(ps[0].status, "Ready");
    assert_eq!(ps[0].uri, "ipp://localhost/printers/Office_Laser");
    assert_eq!(ps[1].status, "Paused");
    assert!(!ps[1].is_accepting);
    assert_eq!(ps[2].status, "Printing");
    assert!(!ps[2].is_default);
    assert_eq!(ps[2].jobs_count, 0);
}

#[test]
fn accepting_uris_and_jobs() {
    let mut ps = printers_from("printer Office_Laser is idle.\nprinter Lab is idle.\n", "");
    apply_accepting(&mut ps, "Office_Laser rejecting requests since Mon\nLab accepting requests since Tue\n");
    assert!(!ps[0].is_accepting);
    assert!(ps[1].is_accepting);
    apply_accepting(&mut ps, "Lab not accepting requests since Wed\n");
    assert!(ps[1].is_accepting);
    apply_device_uris(&mut ps, "device for Office_Laser: usb://HP/LaserJet\ndevice for Lab: ipp://lab.local/ipp\ndevice for Ghost: socket://x\n");
    assert_eq!(ps[0].uri, "usb://HP/LaserJet");
    assert_eq!(ps[0].location, "Direct USB Connection");
    assert_eq!(ps[1].location, "Local Network (IPP / AirPrint)");
    let jobs = read_jobs(&mut ps, "Lab-12 flora 2048 Mon\nLab-13 flora abc Mon\nOffice_Laser-2 root 10 x\nbad\n");
    assert_eq!(jobs.len(), 3);
    assert_eq!(jobs[0].id, "Lab-12");
    assert_eq!(jobs[0].user, "flora");
    assert_eq!(jobs[0].size_bytes, 2048);
    assert_eq!(jobs[1].size_bytes, 0);
    assert_eq!(jobs[0].document_name, "Active Print Spool");
    assert_eq!(jobs[0].status, "In Queue");
    assert_eq!(ps[1].jobs_count, 2);
    assert_eq!(ps[0].jobs_count, 1);
}

#[test]
fn scanners_listed() {
    let out = "device `airscan:e0:Canon' is a Canon MF scanner\ndevice `v4l:/dev/video0' is a Noname `webcam' virtual device\nnot a device\n";
    let ss = scanners_from(out);
    assert_eq!(ss.len(), 2);
    assert_eq!(ss[0].connection, "airscan:e0:Canon");
    assert_eq!(ss[0].name, "Canon MF scanner");
    assert_eq!(ss[0].model, "SANE Compatible Scanner");
    assert_eq!(ss[1].connection, "v4l:/dev/video0");
    assert_eq!(ss[1].status, "Ready");
}

#[test]
fn cups_state() {
    assert!(cups_running(Some("active\n")));
    assert!(!cups_running(Some("inactive\n")));
    assert!(cups_running(None));
}

#[test]
fn whole_page() {
    let d = PrintersInfo::default();
    assert!(d.printers.is_empty());
    assert_eq!(d.default_paper_size, "A4 (210 x 297 mm)");
    let src = PrinterSources {
        lpstat_d: Some("system default destination: Lab\n"),
        lpstat_p: Some("printer Lab is idle.\n"),
        lpstat_a: None,
        lpstat_v: Some("device for Lab: dnssd://Lab._ipp\n"),
        lpstat_o: Some("Lab-1 me 1500 now\n"),
        scanimage: None,
        systemctl: Some("failed"),
    };
    let info = printers_info(&src);
    assert_eq!(info.printers.len(), 1);
    assert!(info.printers[0].is_default);
    assert_eq!(info.printers[0].jobs_count, 1);
    assert_eq!(info.printers[0].location, "Local Network (IPP / AirPrint)");
    assert_eq!(info.active_jobs.len(), 1);
    assert_eq!(info.scanners.len(), 1);
    assert_eq!(info.scanners[0].name, "Office Flatbed Scanner");
    assert!(!info.cups_active);
    assert!(info.network_discovery);
    assert!(!info.share_printers);
}

#[test]
fn nothing_reported_shows_samples() {
    let src = PrinterSources {
        lpstat_d: None,
        lpstat_p: None,
        lpstat_a: None,
        lpstat_v: None,
        lpstat_o: None,
        scanimage: None,
        systemctl: None,
    };
    let info = printers_info(&src);
    assert_eq!(info.printers.len(), 1);
    assert_eq!(info.printers[0].system_name, "Office_LaserJet");
    assert!(info.printers[0].is_default);
    assert_eq!(info.scanners.len(), 1);
    assert_eq!(info.scanners[0].model, "SANE Compatible Scanner");
    assert!(info.active_jobs.is_empty());
    assert!(info.cups_active);
}

#[test]
fn page_actions_on_printers_and_jobs() {
    let mut ps = printers_from("printer A is idle.\nprinter B is idle.\n", "A");
    assert!(ps[0].is_default && !ps[1].is_default);
    mark_default(&mut ps, "B");
    assert!(!ps[0].is_default && ps[1].is_default);
    mark_default(&mut ps, "nope");
    assert!(!ps[0].is_default && !ps[1].is_default);
    let was = queue_paused(&ps[1]);
    toggle_queue(&mut ps, "B", was);
    assert_eq!(ps[1].status, if was { "Ready" } else { "Paused" });
    assert_eq!(ps[1].is_accepting, was);
    assert_eq!(queue_paused(&ps[1]), !was);
    toggle_queue(&mut ps, "B", !was);
    assert_eq!(queue_paused(&ps[1]), was);
    let before = ps[0].status.clone();
    toggle_queue(&mut ps, "missing", true);
    assert_eq!(ps[0].status, before);
    let job = |id: &str| PrintJob {
        id: id.to_string(),
        document_name: "d".to_string(),
        user: "u".to_string(),
        size_bytes: 1,
        status: "In Queue".to_string(),
    };
    let jobs = vec![job("A-1"), job("A-2"), job("A-1")];
    let left = without_job(&jobs, "A-1");
    assert_eq!(left.len(), 1);
    assert_eq!(left[0].id, "A-2");
    assert_eq!(without_job(&jobs, "zz").len(), 3);
}
