use rtcore::queue_family::{find_queue_family, QueueRole};
use rtcore::QueueFamilyProperties;

#[test]
fn queue_family_reports_its_capabilities() {
    let q = QueueFamilyProperties {
        index: 0,
        support_graphics: true,
        support_compute: false,
        support_transfer: true,
        count: 4,
    };
    assert!(q.support_graphics());
    assert!(!q.support_compute());
    assert!(q.support_transfer());
}

fn family(index: u32, graphics: bool, compute: bool, transfer: bool) -> QueueFamilyProperties {
    QueueFamilyProperties {
        index,
        support_graphics: graphics,
        support_compute: compute,
        support_transfer: transfer,
        count: 1,
    }
}

#[test]
fn queue_families_are_picked_by_role() {
    let families = [
        family(0, true, true, true),
        family(1, false, true, true),
        family(2, false, false, true),
    ];
    assert_eq!(find_queue_family(&families, QueueRole::Graphics).map(|f| f.index), Some(0));
    assert_eq!(find_queue_family(&families, QueueRole::Compute).map(|f| f.index), Some(1));
    assert_eq!(find_queue_family(&families, QueueRole::Transfer).map(|f| f.index), Some(2));
    assert_eq!(find_queue_family(&families[..1], QueueRole::Transfer), None);
}
