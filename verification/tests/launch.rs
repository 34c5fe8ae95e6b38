use relm_bar::launch::{application_id, monitor_id, monitor_id_from_shared_path, shared_path_from_args};

#[test]
fn shared_path_is_last_argument() {
    assert_eq!(shared_path_from_args(&vec!["relm_bar".to_string()]), "");
    assert_eq!(shared_path_from_args(&vec![]), "");
    assert_eq!(shared_path_from_args(&vec!["relm_bar".to_string(), "/dev/shm/jwm_2".to_string()]), "/dev/shm/jwm_2");
    assert_eq!(shared_path_from_args(&vec!["relm_bar".to_string(), "a".to_string(), "b_7".to_string()]), "b_7");
}

#[test]
fn monitor_id_from_path_segment() {
    assert_eq!(monitor_id_from_shared_path("/dev/shm/jwm_bar_2"), "2");
    assert_eq!(monitor_id_from_shared_path("/dev/shm/jwm_bar_02"), "2");
    assert_eq!(monitor_id_from_shared_path("/dev/shm/jwm_bar_-1"), "-1");
    assert_eq!(monitor_id_from_shared_path("/dev/shm/jwm_bar_+3"), "3");
    assert_eq!(monitor_id_from_shared_path("/dev/shm/jwm_bar"), "0");
    assert_eq!(monitor_id_from_shared_path("/dev/shm/jwm_bar_x"), "0");
    assert_eq!(monitor_id_from_shared_path("17"), "17");
    assert_eq!(monitor_id_from_shared_path(""), "0");
    assert_eq!(monitor_id_from_shared_path("a_"), "0");
    assert_eq!(monitor_id_from_shared_path("a_99999999999"), "0");
}

#[test]
fn monitor_id_is_a_fixed_point() {
    for p in ["/dev/shm/jwm_bar_02", "x_-0", "x_+44", "nothing", "", "a_b_c", "q_2147483647"] {
        let id = monitor_id_from_shared_path(p);
        assert_eq!(monitor_id_from_shared_path(&id), id);
    }
}

#[test]
fn environment_monitor_id_wins() {
    assert_eq!(monitor_id(Some("5".to_string()), "/dev/shm/jwm_2"), "5");
    assert_eq!(monitor_id(Some("".to_string()), "/dev/shm/jwm_2"), "");
    assert_eq!(monitor_id(None, "/dev/shm/jwm_2"), "2");
}

#[test]
fn application_ids() {
    assert_eq!(application_id("0"), "dev.relm.bar.mon0");
    assert_eq!(application_id("12"), "dev.relm.bar.mon12");
}
