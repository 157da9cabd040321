use minicov::do_stuff;
use minicov::workload::{bar, foo};

#[test]
fn paths_report_their_lines() {
    assert_eq!(foo(), "a");
    assert_eq!(bar(), "b");
}

#[test]
fn do_stuff_takes_the_path_asked_for() {
    assert_eq!(do_stuff(true), "a");
    assert_eq!(do_stuff(false), "b");
}
