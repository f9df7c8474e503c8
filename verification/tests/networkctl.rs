use std::path::Path;
use vpnc_networkd::networkctl::{candidates, find_bin_file, join, Networkctl, NETWORKCTL, RELOAD};

#[test]
fn candidates_follow_the_search_path() {
    assert_eq!(
        candidates("/usr/local/bin:/usr/bin:/bin", "networkctl"),
        vec!["/usr/local/bin/networkctl", "/usr/bin/networkctl", "/bin/networkctl"]
    );
}

#[test]
fn candidates_of_odd_search_paths() {
    assert_eq!(candidates("", "networkctl"), vec!["networkctl"]);
    assert_eq!(candidates("/bin", "networkctl"), vec!["/bin/networkctl"]);
    assert_eq!(candidates("/bin/", "networkctl"), vec!["/bin/networkctl"]);
    assert_eq!(candidates(":", "networkctl"), vec!["networkctl", "networkctl"]);
    assert_eq!(
        candidates("/bin::/sbin:", "networkctl"),
        vec!["/bin/networkctl", "networkctl", "/sbin/networkctl", "networkctl"]
    );
    assert_eq!(candidates("rel:.", "x"), vec!["rel/x", "./x"]);
}

#[test]
fn candidates_agree_with_the_standard_path_functions() {
    for path in ["", ":", "/usr/bin", "/usr/bin:/bin", "/a/:/b//:c::d/e:", "/:/", "a b:ü/ß"] {
        for file in ["networkctl", "", "/abs/ctl", "sub/ctl", "ü"] {
            let expected: Vec<String> = path
                .split(':')
                .map(|p| Path::new(p).join(file).to_str().unwrap().to_string())
                .collect();
            assert_eq!(candidates(path, file), expected, "{:?} {:?}", path, file);
        }
    }
}

#[test]
fn join_puts_one_slash_between() {
    assert_eq!(join("/usr/bin", "networkctl"), "/usr/bin/networkctl");
    assert_eq!(join("/usr/bin/", "networkctl"), "/usr/bin/networkctl");
    assert_eq!(join("", "networkctl"), "networkctl");
    assert_eq!(join("/", "networkctl"), "/networkctl");
    assert_eq!(join("/usr/bin", "/sbin/networkctl"), "/sbin/networkctl");
    assert_eq!(join("/usr/bin", ""), "/usr/bin/");
    assert_eq!(join("", ""), "");
}

#[test]
fn the_first_present_candidate_is_found() {
    let path = "/usr/local/bin:/usr/bin:/bin";
    assert_eq!(
        find_bin_file(path, "networkctl", &vec![false, true, true]),
        Some("/usr/bin/networkctl".to_string())
    );
    assert_eq!(
        find_bin_file(path, "networkctl", &vec![true, false, false]),
        Some("/usr/local/bin/networkctl".to_string())
    );
    assert_eq!(
        find_bin_file(path, "networkctl", &vec![false, false, true]),
        Some("/bin/networkctl".to_string())
    );
}

#[test]
fn nothing_present_nothing_found() {
    let path = "/usr/local/bin:/usr/bin:/bin";
    assert_eq!(find_bin_file(path, "networkctl", &vec![false, false, false]), None);
    assert_eq!(find_bin_file(path, "networkctl", &Vec::new()), None);
    assert_eq!(find_bin_file(path, "networkctl", &vec![false]), None);
    assert_eq!(find_bin_file("", "networkctl", &vec![false]), None);
}

#[test]
fn reports_beyond_the_candidates_do_not_count() {
    assert_eq!(find_bin_file("/bin", "networkctl", &vec![false, true]), None);
    assert_eq!(
        find_bin_file("/bin", "networkctl", &vec![true, true]),
        Some("/bin/networkctl".to_string())
    );
}

#[test]
fn networkctl_is_looked_for_by_its_name() {
    assert_eq!(NETWORKCTL, "networkctl");
    assert_eq!(
        Networkctl::candidates("/usr/bin:/bin"),
        vec!["/usr/bin/networkctl", "/bin/networkctl"]
    );
}

#[test]
fn networkctl_settles_on_the_first_present() {
    let found = Networkctl::new("/usr/bin:/bin", &vec![false, true]).unwrap();
    assert_eq!(found.bin(), "/bin/networkctl");
    let found = Networkctl::new("/usr/bin:/bin", &vec![true, true]).unwrap();
    assert_eq!(found.bin(), "/usr/bin/networkctl");
}

#[test]
fn networkctl_that_is_nowhere() {
    assert!(Networkctl::new("/usr/bin:/bin", &vec![false, false]).is_none());
    assert!(Networkctl::new("", &Vec::new()).is_none());
}

#[test]
fn reload_command() {
    assert_eq!(RELOAD, "reload");
    let found = Networkctl::new("/usr/bin", &vec![true]).unwrap();
    assert_eq!(found.reload(), vec!["/usr/bin/networkctl", "reload"]);
}
