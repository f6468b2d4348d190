use vipperfox::models::{ReportUser, VipUser};
use vipperfox::state::build_silent_report;

#[test]
fn report_contains_only_silent_vips() {
    let vips = [
        VipUser { user_id: "1".into(), login: "active".into(), display_name: "Active".into(), watch_streak: None, wrote_this_stream: true },
        VipUser { user_id: "2".into(), login: "silent".into(), display_name: "Silent".into(), watch_streak: None, wrote_this_stream: false },
    ];
    let report: Vec<ReportUser> = vips.iter().filter(|vip| !vip.wrote_this_stream).map(ReportUser::from).collect();
    assert_eq!(report.len(), 1);
    assert_eq!(report[0].user_id, "2");
}

#[test]
fn built_report_lists_silent_vips_in_order_unselected() {
    let vips = vec![
        VipUser { user_id: "1".into(), login: "a".into(), display_name: "A".into(), watch_streak: Some(3), wrote_this_stream: false },
        VipUser { user_id: "2".into(), login: "b".into(), display_name: "B".into(), watch_streak: None, wrote_this_stream: true },
        VipUser { user_id: "3".into(), login: "c".into(), display_name: "C".into(), watch_streak: None, wrote_this_stream: false },
    ];
    let report = build_silent_report(&vips);
    assert_eq!(report.len(), 2);
    assert_eq!(report[0].user_id, "1");
    assert_eq!(report[0].watch_streak, Some(3));
    assert!(!report[0].selected);
    assert_eq!(report[1].user_id, "3");
}
