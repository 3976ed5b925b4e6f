use shared_memory::resolver::{Outcome, Phase, Resolver, Step};
use shared_memory::windows::{create_mapping, open_mapping, MapData, ShmemConf, ShmemConfExt};
use shared_memory::Error;

fn ready(step: Step) -> MapData {
    match step {
        Step::Ready(m) => m,
        _ => panic!("expected a ready mapping"),
    }
}

fn abort(step: Step) -> (Error, Option<usize>, Option<u64>) {
    match step {
        Step::Abort { error, unmap, close } => (error, unmap, close),
        _ => panic!("expected an abort"),
    }
}

#[test]
fn create_with_size_zero_fails_before_any_call() {
    let (r, step) = create_mapping("m", 0);
    assert_eq!(abort(step), (Error::MapSizeZero, None, None));
    assert_eq!(r.phase(), Phase::Failed);
    let (_, step) = ShmemConf::new().os_id("m").create_or_open();
    assert_eq!(abort(step), (Error::MapSizeZero, None, None));
}

#[test]
fn empty_name_is_refused() {
    let (_, step) = open_mapping("", 4096, &ShmemConfExt::default());
    assert_eq!(abort(step), (Error::NoLinkOrOsId, None, None));
}

#[test]
fn create_maps_the_requested_size() {
    let (mut r, step) = create_mapping("m", 4096);
    assert!(matches!(step, Step::CreateMapping { size: 4096 }));
    let step = r.resume(Outcome::Handle(7));
    assert!(matches!(step, Step::MapView { handle: 7, size: 4096 }));
    let m = ready(r.resume(Outcome::View(0x1000)));
    assert_eq!(m.map_size(), 4096);
    assert!(m.view.owner());
    assert_eq!(m.view.handle(), 7);
    assert_eq!(m.as_mut_ptr(), 0x1000);
    assert_eq!(r.phase(), Phase::Done);
}

#[test]
fn create_of_taken_name_reports_link_exists() {
    let (mut r, _) = create_mapping("m", 4096);
    assert_eq!(abort(r.resume(Outcome::AlreadyExists)), (Error::LinkExists, None, None));
}

#[test]
fn create_or_open_falls_back_to_open() {
    let (mut r, _) = ShmemConf::new().os_id("m").size(4096).create_or_open();
    assert!(matches!(r.resume(Outcome::AlreadyExists), Step::OpenMapping));
    assert!(matches!(r.resume(Outcome::Handle(9)), Step::MapView { handle: 9, size: 4096 }));
    assert!(matches!(r.resume(Outcome::View(0x2000)), Step::QueryRegion { base: 0x2000 }));
    let m = ready(r.resume(Outcome::Region(8192)));
    assert_eq!(m.map_size(), 4096);
    assert!(!m.view.owner());
}

fn open_with(requested: usize, region: usize) -> MapData {
    let (mut r, step) = open_mapping("m", requested, &ShmemConfExt::default());
    assert!(matches!(step, Step::OpenMapping));
    r.resume(Outcome::Handle(3));
    r.resume(Outcome::View(0x3000));
    ready(r.resume(Outcome::Region(region)))
}

#[test]
fn open_size_follows_the_region() {
    assert_eq!(open_with(0, 4096).map_size(), 4096);
    assert_eq!(open_with(10000, 4096).map_size(), 4096);
    assert_eq!(open_with(100, 4096).map_size(), 100);
    assert_eq!(open_with(4096, 4096).map_size(), 4096);
}

#[test]
fn reopen_gets_the_creators_size() {
    let (mut c, _) = ShmemConf::new().os_id("m").size(4096).create_or_open();
    c.resume(Outcome::Handle(1));
    let first = ready(c.resume(Outcome::View(0x1000)));
    let second = open_with(0, first.map_size());
    assert_eq!(second.map_size(), first.map_size());
}

#[test]
fn open_of_missing_name_reports_does_not_exist() {
    let (mut r, _) = ShmemConf::new().os_id("m").open();
    assert_eq!(abort(r.resume(Outcome::NotFound)), (Error::LinkDoesNotExist, None, None));
}

#[test]
fn os_failures_carry_their_code() {
    let (mut r, _) = create_mapping("m", 10);
    assert_eq!(abort(r.resume(Outcome::Failed(5))), (Error::MapCreateFailed(5), None, None));
    let (mut r, _) = ShmemConf::new().os_id("m").allow_raw(true).open();
    assert_eq!(abort(r.resume(Outcome::Failed(6))), (Error::MapOpenFailed(6), None, None));
}

#[test]
fn failed_view_closes_the_handle() {
    let (mut r, _) = create_mapping("m", 10);
    r.resume(Outcome::Handle(11));
    assert_eq!(abort(r.resume(Outcome::Failed(8))), (Error::UnknownOsError(8), None, Some(11)));
}

#[test]
fn failed_query_unmaps_and_closes() {
    let (mut r, _) = open_mapping("m", 0, &ShmemConfExt::default());
    r.resume(Outcome::Handle(12));
    r.resume(Outcome::View(0x5000));
    assert_eq!(abort(r.resume(Outcome::Failed(2))), (Error::UnknownOsError(2), Some(0x5000), Some(12)));
}

#[test]
fn unexpected_outcome_aborts() {
    let (mut r, _) = create_mapping("m", 10);
    assert_eq!(abort(r.resume(Outcome::Region(4))), (Error::UnknownOsError(0), None, None));
    let (mut r, _) = Resolver::start("m", 10, false, false);
    r.resume(Outcome::Handle(1));
    r.resume(Outcome::View(0x10));
    r.resume(Outcome::Region(10));
    assert_eq!(abort(r.resume(Outcome::Region(10))), (Error::UnknownOsError(0), None, None));
}
