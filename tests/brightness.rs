use mac_cli::controller::{BrightnessController, BrightnessError, GetterCall, SetterCall};
use mac_cli::display::{list_active_displays, primary_display, EnumerationError, MAX_DISPLAYS};
use mac_cli::level::{check_percentage, is_unit_level, PercentError};
use mac_cli::setup::{
    candidate_path, entry_name, Entry, Event, Scope, Setup, SetupError, Step, CANDIDATE_COUNT,
};

fn bound() -> BrightnessController {
    BrightnessController::bind(42, Some(0xB0), 0x10, 0x20)
}

fn run(setup: &mut Setup, events: Vec<Event>) -> Vec<Step> {
    let mut steps = vec![setup.next_step()];
    for e in events {
        setup.advance(e);
        steps.push(setup.next_step());
    }
    steps
}

#[test]
fn binds_display_through_second_candidate() {
    let mut setup = Setup::new(2);
    let steps = run(
        &mut setup,
        vec![
            Event::Displays(primary_display(0, &vec![42])),
            Event::Opened(None),
            Event::Opened(Some(0xB0)),
            Event::Found(Some(0x10)),
            Event::Found(Some(0x20)),
        ],
    );
    assert_eq!(
        steps,
        vec![
            Step::ListDisplays(MAX_DISPLAYS),
            Step::Load(0),
            Step::Load(1),
            Step::Lookup(Scope::Library(0xB0), Entry::Getter),
            Step::Lookup(Scope::Library(0xB0), Entry::Setter),
            Step::Ready(bound()),
        ]
    );
    let controller = match setup.next_step() {
        Step::Ready(c) => c,
        other => panic!("not ready: {:?}", other),
    };
    assert_eq!(controller.display_id, 42);
    assert_eq!(controller.close(), Some(0xB0));
}

#[test]
fn second_candidate_stops_loading() {
    let mut setup = Setup::new(3);
    let steps = run(
        &mut setup,
        vec![
            Event::Displays(Ok(7)),
            Event::Opened(None),
            Event::Opened(Some(0xB0)),
            Event::Opened(None),
            Event::Found(Some(1)),
            Event::Found(Some(2)),
        ],
    );
    assert!(!steps.contains(&Step::Load(2)));
    assert_eq!(
        setup.next_step(),
        Step::Ready(BrightnessController::bind(7, Some(0xB0), 1, 2))
    );
}

#[test]
fn all_loads_fail_falls_back_to_process() {
    let mut setup = Setup::new(2);
    let steps = run(
        &mut setup,
        vec![
            Event::Displays(Ok(3)),
            Event::Opened(None),
            Event::Opened(None),
            Event::Found(Some(5)),
            Event::Found(Some(6)),
        ],
    );
    assert_eq!(steps[3], Step::Lookup(Scope::Process, Entry::Getter));
    assert_eq!(steps[4], Step::Lookup(Scope::Process, Entry::Setter));
    assert_eq!(
        setup.next_step(),
        Step::Ready(BrightnessController::bind(3, None, 5, 6))
    );
}

#[test]
fn no_candidates_looks_up_in_process() {
    let mut setup = Setup::new(0);
    setup.advance(Event::Displays(Ok(3)));
    assert_eq!(setup.next_step(), Step::Lookup(Scope::Process, Entry::Getter));
}

#[test]
fn missing_setter_releases_handle_and_fails() {
    let mut setup = Setup::new(2);
    let steps = run(
        &mut setup,
        vec![
            Event::Displays(Ok(42)),
            Event::Opened(Some(0xA0)),
            Event::Found(Some(0x10)),
            Event::Found(None),
            Event::Released,
        ],
    );
    assert_eq!(steps[4], Step::Release(0xA0));
    assert_eq!(steps[5], Step::Failed(SetupError::SymbolsUnavailable));
    assert_eq!(setup.handle, None);
}

#[test]
fn missing_getter_without_handle_fails() {
    let mut setup = Setup::new(1);
    run(
        &mut setup,
        vec![
            Event::Displays(Ok(42)),
            Event::Opened(None),
            Event::Found(None),
            Event::Found(Some(0x20)),
        ],
    );
    assert_eq!(setup.next_step(), Step::Failed(SetupError::SymbolsUnavailable));
}

#[test]
fn no_active_displays_stops_before_loading() {
    let mut setup = Setup::new(2);
    let listing = primary_display(0, &vec![]);
    assert_eq!(listing, Err(EnumerationError::NoActiveDisplays));
    setup.advance(Event::Displays(listing));
    let failed = Step::Failed(SetupError::Enumeration(EnumerationError::NoActiveDisplays));
    assert_eq!(setup.next_step(), failed);
    setup.advance(Event::Opened(Some(1)));
    assert_eq!(setup.next_step(), failed);
}

#[test]
fn platform_failure_in_listing() {
    assert_eq!(
        primary_display(1001, &vec![1, 2]),
        Err(EnumerationError::PlatformCallFailed(1001))
    );
}

#[test]
fn listing_keeps_at_most_max() {
    assert_eq!(list_active_displays(2, 0, &vec![4, 5, 6]), Ok(vec![4, 5]));
    assert_eq!(list_active_displays(16, 0, &vec![4, 5, 6]), Ok(vec![4, 5, 6]));
    assert_eq!(
        list_active_displays(0, 0, &vec![4]),
        Err(EnumerationError::NoActiveDisplays)
    );
    assert_eq!(primary_display(0, &vec![9, 8]), Ok(9));
}

#[test]
fn get_returns_written_level() {
    let c = bound();
    assert_eq!(c.get(), GetterCall { entry: 0x10, display: 42 });
    let r = BrightnessController::get_outcome(0, 0.73f32.to_bits());
    assert_eq!(r.map(f32::from_bits), Ok(0.73f32));
}

#[test]
fn get_reports_platform_status() {
    assert_eq!(
        BrightnessController::get_outcome(5, 0.5f32.to_bits()),
        Err(BrightnessError::PlatformReturnedError(5))
    );
}

#[test]
fn set_out_of_range_makes_no_call() {
    let c = bound();
    for v in [-0.1f32, 1.0001, 2.0, -1.0, f32::NAN, f32::INFINITY, f32::NEG_INFINITY] {
        assert_eq!(c.set(v.to_bits()), Err(BrightnessError::OutOfRange));
    }
}

#[test]
fn set_in_range_calls_setter_once_unchanged() {
    let c = bound();
    for v in [0.0f32, -0.0, 0.5, 0.1, 1.0, f32::MIN_POSITIVE] {
        assert_eq!(
            c.set(v.to_bits()),
            Ok(SetterCall { entry: 0x20, display: 42, level: v.to_bits() })
        );
    }
}

#[test]
fn set_outcome_maps_status() {
    assert_eq!(BrightnessController::set_outcome(0), Ok(()));
    assert_eq!(
        BrightnessController::set_outcome(-3),
        Err(BrightnessError::PlatformReturnedError(-3))
    );
}

#[test]
fn unit_level_matches_float_comparison() {
    for v in [0.0f32, -0.0, 1.0, 0.999, 1.0000001, -0.0000001, f32::NAN, 42.0] {
        assert_eq!(is_unit_level(v.to_bits()), (0.0..=1.0).contains(&v));
    }
}

#[test]
fn percentage_checks() {
    assert_eq!(check_percentage(0.0f32.to_bits()), Err(PercentError::Zero));
    assert_eq!(check_percentage((-0.0f32).to_bits()), Err(PercentError::Zero));
    assert_eq!(check_percentage(5.0f32.to_bits()), Err(PercentError::OutOfRange));
    assert_eq!(check_percentage(100.5f32.to_bits()), Err(PercentError::OutOfRange));
    assert_eq!(check_percentage((-50.0f32).to_bits()), Err(PercentError::OutOfRange));
    assert_eq!(check_percentage(10.0f32.to_bits()), Ok(()));
    assert_eq!(check_percentage(100.0f32.to_bits()), Ok(()));
    assert_eq!(check_percentage(55.5f32.to_bits()), Ok(()));
}

#[test]
fn candidates_and_entry_names() {
    assert_eq!(CANDIDATE_COUNT, 2);
    assert_eq!(
        candidate_path(0),
        "/System/Library/PrivateFrameworks/DisplayServices.framework/DisplayServices"
    );
    assert_eq!(candidate_path(1), "/System/Library/PrivateFrameworks/SkyLight.framework/SkyLight");
    assert_eq!(entry_name(Entry::Getter), "DisplayServicesGetBrightness");
    assert_eq!(entry_name(Entry::Setter), "DisplayServicesSetBrightness");
}
