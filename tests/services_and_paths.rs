use crosscode::error::DeviceError;
use crosscode::sdk_filter::{destination_components, is_wanted};
use crosscode::services::{launch_target, ServiceTable, INSTRUMENTS_SERVICE};
use crosscode::wsl::{
    escape_backslashes, windows_to_wsl_path, wsl_to_windows_path, wslpath_args, wslpath_output,
    Conversion,
};

#[test]
fn service_lookup_by_name() {
    let mut t = ServiceTable::new();
    t.add("com.apple.coredevice.appservice".to_string(), 50001);
    t.add(INSTRUMENTS_SERVICE.to_string(), 50002);
    assert_eq!(t.port_of("com.apple.instruments.dtservicehub"), Ok(50002));
    assert_eq!(
        t.port_of("com.apple.missing"),
        Err(DeviceError::ServiceNotFound("com.apple.missing".to_string()))
    );
    assert!(ServiceTable::new().port_of(INSTRUMENTS_SERVICE).is_err());
}

#[test]
fn launch_target_joins_bundle_and_team() {
    assert_eq!(launch_target("com.example.app", "ABCDE12345"), "com.example.app.ABCDE12345");
}

#[test]
fn wslpath_arguments() {
    assert_eq!(
        wslpath_args("C:\\Users\\me", Conversion::WindowsToWsl, false, true),
        vec!["-e", "wslpath", "-u", "C:\\\\Users\\\\me"]
    );
    assert_eq!(
        wslpath_args("/home/me", Conversion::WslToWindowsLinuxStyle, true, false),
        vec!["-e", "wslpath", "-m", "-a", "/home/me"]
    );
    assert_eq!(escape_backslashes("a\\b"), "a\\\\b");
}

#[test]
fn wslpath_output_is_checked_and_trimmed() {
    assert_eq!(wslpath_output(Some(0), b"  /mnt/c/Users\n".to_vec()), Ok("/mnt/c/Users".to_string()));
    assert_eq!(
        wslpath_output(Some(1), Vec::new()),
        Err("Error getting wslpath: 1".to_string())
    );
    assert_eq!(wslpath_output(None, Vec::new()), Err("Error getting wslpath: -1".to_string()));
    assert_eq!(
        wslpath_output(Some(0), vec![0xc3]),
        Err("Error converting output to string".to_string())
    );
}

#[test]
fn conversion_falls_back_to_raw_path() {
    let mut t = windows_to_wsl_path("C:\\x");
    assert_eq!(t.args(), vec!["-e", "wslpath", "-u", "C:\\\\x"]);
    assert_eq!(t.advance(Err("first".to_string())), None);
    assert_eq!(t.args(), vec!["-e", "wslpath", "-u", "C:\\x"]);
    assert_eq!(t.advance(Err("second".to_string())), Some(Err("first".to_string())));
}

#[test]
fn conversion_succeeds_on_first_run() {
    let mut t = wsl_to_windows_path("/tmp");
    assert_eq!(t.args(), vec!["-e", "wslpath", "-w", "/tmp"]);
    assert_eq!(t.advance(Ok("C:\\tmp".to_string())), Some(Ok("C:\\tmp".to_string())));
}

#[test]
fn conversion_second_run_success() {
    let mut t = windows_to_wsl_path("D:\\y");
    assert_eq!(t.advance(Err("first".to_string())), None);
    assert_eq!(t.advance(Ok("/mnt/d/y".to_string())), Some(Ok("/mnt/d/y".to_string())));
}

#[test]
fn wanted_sdk_paths() {
    assert!(is_wanted("Contents/Developer"));
    assert!(is_wanted("Contents"));
    assert!(is_wanted("Xcode.app/Contents/Developer/Platforms/iPhoneOS.platform/Developer/SDKs/iPhoneOS.sdk"));
    assert!(is_wanted("Contents/Developer/Toolchains/XcodeDefault.xctoolchain/usr/lib/swift/iphoneos"));
    assert!(is_wanted("Contents/Developer/Platforms/MacOSX.platform/Developer/Library/PrivateFrameworks/X.framework"));
    assert!(is_wanted("./Contents//Developer/Platforms"));
    assert!(!is_wanted("Contents/Resources"));
    assert!(!is_wanted("Contents/Developer/Platforms/WatchOS.platform"));
    assert!(!is_wanted("Contents/Developer/Platforms/iPhoneOS.platform/Developer/Library/Xcode"));
    assert!(!is_wanted("Contents/Developer/Toolchains/XcodeDefault.xctoolchain/usr/bin"));
}

#[test]
fn prebuilt_modules_are_left_out() {
    assert!(!is_wanted(
        "Contents/Developer/Toolchains/XcodeDefault.xctoolchain/usr/lib/swift/macosx/arm64/prebuilt-modules"
    ));
    assert!(!is_wanted(
        "Xcode.app/Contents/Developer/Toolchains/XcodeDefault.xctoolchain/usr/lib/swift/a/b/prebuilt-modules/c"
    ));
    assert!(is_wanted(
        "Contents/Developer/Toolchains/XcodeDefault.xctoolchain/usr/lib/swift/macosx/other/x"
    ));
}

#[test]
fn destination_strips_developer_root() {
    assert_eq!(destination_components("Contents/Developer/Platforms/x"), vec!["Platforms", "x"]);
    assert_eq!(destination_components("Contents/Developer"), Vec::<String>::new());
    assert_eq!(destination_components("Contents"), Vec::<String>::new());
    assert_eq!(destination_components("Contents/Other/x"), vec!["Contents", "Other", "x"]);
    assert_eq!(destination_components("Developer/x"), vec!["x"]);
    assert_eq!(destination_components("Other/x"), vec!["Other", "x"]);
}
