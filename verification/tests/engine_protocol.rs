use mapview::engine::{
    map_length, plan_multiple, plan_multiple_mut, unmap_outcome, unmap_regions, AttemptOutcome,
    PlacementProtocol, ProtocolStep, MAX_ATTEMPTS,
};
use mapview::error::{Error, ErrorKind};
use mapview::object::MappedObject;
use mapview::perms::{ReadPermissions, ViewPermissions, WritePermissions};
use mapview::units::{length_granularity, offset_granularity, Length, Offset};

#[test]
fn two_adjacent_views_plan_one_contiguous_range() {
    let lg = length_granularity();
    let obj = MappedObject::anonymous(4 * lg).unwrap();
    let start = Offset::zero(offset_granularity());
    let one = Length::round_up(1, lg);
    let two = Length::round_up(lg + 1, lg);
    let a = obj.view(start, one, ReadPermissions::Read).unwrap();
    let b = obj.view(start, two, ReadPermissions::Read).unwrap();
    let views = vec![a, b];
    let total = map_length(&views);
    assert_eq!(total, one.to_usize() + two.to_usize());
    let plan = plan_multiple(&views, false).unwrap();
    assert_eq!(plan.total, total);
    assert_eq!(plan.placements.len(), 2);
    // Back-to-back in the supplied order: no gap, no overlap.
    assert_eq!(plan.placements[0].offset, 0);
    assert_eq!(plan.placements[0].length, one.to_usize());
    assert_eq!(plan.placements[1].offset, one.to_usize());
    assert_eq!(plan.placements[1].length, two.to_usize());
    assert_eq!(plan.placements[1].offset + plan.placements[1].length, total);
    assert_eq!(plan.placements[0].permissions, ViewPermissions::Read);
    obj.close().unwrap();
}

#[test]
fn empty_batch_plans_an_empty_range() {
    let views = Vec::new();
    assert_eq!(map_length(&views), 0);
    let plan = plan_multiple(&views, false).unwrap();
    assert_eq!(plan.total, 0);
    assert_eq!(plan.placements.len(), 0);
    // With no view to object, even a mutable batch is permitted.
    assert!(plan_multiple(&views, true).is_ok());
}

#[test]
fn immutable_view_aborts_a_mutable_batch() {
    let lg = length_granularity();
    let obj = MappedObject::anonymous(4 * lg).unwrap();
    let start = Offset::zero(offset_granularity());
    let one = Length::round_up(1, lg);
    let a = obj.view(start, one, ReadPermissions::Read).unwrap();
    let views = vec![a];
    let err = plan_multiple(&views, true).unwrap_err();
    assert_eq!(err.kind, ErrorKind::AccessDenied);
    obj.close().unwrap();
}

#[test]
fn mutable_views_always_plan() {
    let lg = length_granularity();
    let obj = MappedObject::anonymous(4 * lg).unwrap();
    let start = Offset::zero(offset_granularity());
    let one = Length::round_up(1, lg);
    let a = obj.view_mut(start, one, WritePermissions::Write).unwrap();
    let b = obj.view_mut(start, one, WritePermissions::CopyOnWrite).unwrap();
    let views = vec![a, b];
    let plan = plan_multiple_mut(&views).unwrap();
    assert_eq!(plan.total, 2 * one.to_usize());
    assert_eq!(plan.placements[1].offset, one.to_usize());
    assert_eq!(plan.placements[1].permissions, ViewPermissions::CopyOnWrite);
    obj.close().unwrap();
}

#[test]
fn protocol_retries_then_gives_up_with_race_condition() {
    let mut protocol = PlacementProtocol::new();
    assert_eq!(protocol.attempts_left(), MAX_ATTEMPTS);
    for i in 0..(MAX_ATTEMPTS - 1) {
        let step = protocol.record(AttemptOutcome::Clashed(17));
        assert_eq!(step, ProtocolStep::TryAgain);
        assert_eq!(protocol.attempts_left(), MAX_ATTEMPTS - 1 - i);
    }
    // The budget of attempts is spent: the race is surfaced, carrying the
    // error number of the last clash.
    let last = protocol.record(AttemptOutcome::Clashed(23));
    match last {
        ProtocolStep::GiveUp(e) => {
            assert_eq!(e.kind, ErrorKind::RaceCondition);
            assert_eq!(e.code, 23);
            assert!(e.is_race_condition());
        },
        other => panic!("expected the protocol to give up, got {:?}", other),
    }
}

#[test]
fn protocol_finishes_on_success() {
    let mut protocol = PlacementProtocol::new();
    assert_eq!(protocol.record(AttemptOutcome::Clashed(11)), ProtocolStep::TryAgain);
    assert_eq!(protocol.record(AttemptOutcome::Placed), ProtocolStep::Finished);
}

#[test]
fn unmap_regions_walk_the_original_lengths_in_order() {
    let lengths = vec![4096usize, 8192, 4096];
    let regions = unmap_regions(0x10000, &lengths);
    assert_eq!(regions.len(), 3);
    assert_eq!(regions[0].address, 0x10000);
    assert_eq!(regions[0].length, 4096);
    assert_eq!(regions[1].address, 0x11000);
    assert_eq!(regions[1].length, 8192);
    assert_eq!(regions[2].address, 0x13000);
    assert_eq!(regions[2].length, 4096);
    // The partition ends exactly at base plus the total.
    assert_eq!(regions[2].address + regions[2].length, 0x10000 + 4096 + 8192 + 4096);
}

#[test]
fn unmap_outcome_reports_the_first_error_only() {
    assert!(unmap_outcome(&vec![None, None, None]).is_ok());
    assert!(unmap_outcome(&Vec::new()).is_ok());
    let first = Error::system(5);
    let second = Error::system(9);
    let r = unmap_outcome(&vec![None, Some(first), Some(second)]).unwrap_err();
    assert_eq!(r, first);
}
