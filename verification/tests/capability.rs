use command::capability::{Capability, Compute, General, Graphics, QueueType, Supports, Transfer};

const ALL: [QueueType; 4] =
    [QueueType::General, QueueType::Graphics, QueueType::Compute, QueueType::Transfer];

#[test]
fn kinds_of_command_per_queue_type() {
    assert!(QueueType::General.supports_graphics());
    assert!(QueueType::General.supports_compute());
    assert!(QueueType::General.supports_transfer());
    assert!(QueueType::Graphics.supports_graphics());
    assert!(!QueueType::Graphics.supports_compute());
    assert!(QueueType::Graphics.supports_transfer());
    assert!(!QueueType::Compute.supports_graphics());
    assert!(QueueType::Compute.supports_compute());
    assert!(QueueType::Compute.supports_transfer());
    assert!(!QueueType::Transfer.supports_graphics());
    assert!(!QueueType::Transfer.supports_compute());
    assert!(QueueType::Transfer.supports_transfer());
}

#[test]
fn supports_all_of_is_the_expected_table() {
    for a in ALL {
        for b in ALL {
            let expected = a == b || a == QueueType::General || b == QueueType::Transfer;
            assert_eq!(a.supports_all_of(b), expected, "{:?} supports {:?}", a, b);
        }
    }
}

#[test]
fn graphics_and_compute_do_not_support_each_other() {
    assert!(!QueueType::Graphics.supports_all_of(QueueType::Compute));
    assert!(!QueueType::Compute.supports_all_of(QueueType::Graphics));
}

#[test]
fn supports_all_of_is_a_partial_order() {
    for a in ALL {
        assert!(a.supports_all_of(a));
        for b in ALL {
            if a.supports_all_of(b) && b.supports_all_of(a) {
                assert_eq!(a, b);
            }
            for c in ALL {
                if a.supports_all_of(b) && b.supports_all_of(c) {
                    assert!(a.supports_all_of(c));
                }
            }
        }
    }
}

#[test]
fn markers_widen_to_their_queue_type() {
    assert_eq!(Transfer.into_queue_type(), QueueType::Transfer);
    assert_eq!(Compute.into_queue_type(), QueueType::Compute);
    assert_eq!(Graphics.into_queue_type(), QueueType::Graphics);
    assert_eq!(General.into_queue_type(), QueueType::General);
}

#[test]
fn widening_a_value_changes_nothing() {
    for a in ALL {
        assert_eq!(a.into_queue_type(), a);
        assert_eq!(a.into_queue_type().into_queue_type(), a.into_queue_type());
    }
}

#[test]
fn narrowing_a_value_to_a_marker() {
    for a in ALL {
        assert_eq!(Transfer::from_queue_type(a), Some(Transfer));
        assert_eq!(
            Compute::from_queue_type(a),
            if a == QueueType::Compute || a == QueueType::General { Some(Compute) } else { None }
        );
        assert_eq!(
            Graphics::from_queue_type(a),
            if a == QueueType::Graphics || a == QueueType::General { Some(Graphics) } else { None }
        );
        assert_eq!(
            General::from_queue_type(a),
            if a == QueueType::General { Some(General) } else { None }
        );
        assert_eq!(QueueType::from_queue_type(a), Some(a));
    }
}

#[test]
fn supports_narrows_a_value() {
    let narrowed: Option<Graphics> = QueueType::General.supports();
    assert_eq!(narrowed, Some(Graphics));
    let narrowed: Option<Graphics> = QueueType::Compute.supports();
    assert_eq!(narrowed, None);
    let narrowed: Option<Compute> = QueueType::Graphics.supports();
    assert_eq!(narrowed, None);
    let narrowed: Option<General> = QueueType::Transfer.supports();
    assert_eq!(narrowed, None);
    let narrowed: Option<Transfer> = QueueType::Transfer.supports();
    assert_eq!(narrowed, Some(Transfer));
}

#[test]
fn supports_between_markers_never_fails() {
    let a: Option<Transfer> = Transfer.supports();
    let b: Option<Transfer> = Compute.supports();
    let c: Option<Compute> = Compute.supports();
    let d: Option<Transfer> = Graphics.supports();
    let e: Option<Graphics> = Graphics.supports();
    let f: Option<Transfer> = General.supports();
    let g: Option<Compute> = General.supports();
    let h: Option<Graphics> = General.supports();
    let i: Option<General> = General.supports();
    assert!(a.is_some() && b.is_some() && c.is_some() && d.is_some() && e.is_some());
    assert!(f.is_some() && g.is_some() && h.is_some() && i.is_some());
}

#[test]
fn narrowing_then_widening_is_covered_by_the_first() {
    for a in ALL {
        if let Some(narrowed) = Compute::from_queue_type(a) {
            assert!(a.supports_all_of(narrowed.into_queue_type()));
        }
        if let Some(narrowed) = Graphics::from_queue_type(a) {
            assert!(a.supports_all_of(narrowed.into_queue_type()));
        }
        if let Some(narrowed) = General::from_queue_type(a) {
            assert_eq!(narrowed.into_queue_type(), a);
        }
    }
}
