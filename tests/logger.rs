use bme680_influx::config::{device_id_or_default, ConfigError, DbSettings};
use bme680_influx::cycle::{Action, Controller, Event, CYCLE_PAUSE_MS};
use bme680_influx::point::{measurement, SeriesPoint};
use bme680_influx::profile::{FilterSize, Oversampling, SensorProfile};
use bme680_influx::reading::{FieldKind, Freshness, Reading};
use bme680_influx::warmup::{WarmupGate, WARMUP_CYCLES};

fn reading(freshness: Freshness) -> Reading<f64> {
    Reading { temperature: 22.5, pressure: 1013.0, humidity: 45.0, gas_resistance: 1200.0, freshness }
}

fn tags_of(p: &SeriesPoint<f64>) -> Vec<(String, String)> {
    p.tags.iter().map(|t| (t.key.clone(), t.value.clone())).collect()
}

/// Runs one full cycle, answering every write with `write_ok`, and returns the
/// points published and whether the cycle reached the pause.
fn one_cycle(ctl: &mut Controller<f64>, sample: Option<Reading<f64>>, write_ok: bool) -> (Vec<SeriesPoint<f64>>, bool) {
    let mut published = Vec::new();
    let mut action = ctl.pending();
    loop {
        let event = match action {
            Action::SetForcedMode => Event::ModeSet,
            Action::ReadSensor => match sample {
                Some(r) => Event::Sampled(r),
                None => Event::SampleFailed,
            },
            Action::Publish(p) => {
                published.push(p);
                if write_ok {
                    Event::Written
                } else {
                    Event::WriteFailed
                }
            }
            Action::Sleep(ms) => {
                assert_eq!(ms, CYCLE_PAUSE_MS);
                ctl.step(Event::Woke);
                return (published, true);
            }
            Action::Abort => return (published, false),
        };
        action = ctl.step(event);
    }
}

#[test]
fn gate_closed_for_warmup_then_latched_open() {
    let mut gate = WarmupGate::new();
    assert!(!gate.is_open());
    for call in 1..=12u32 {
        assert!(!gate.pass_cycle(), "call {} must be refused", call);
        assert_eq!(gate.counted() as u32, call);
    }
    assert!(gate.pass_cycle());
    for _ in 0..300 {
        assert!(gate.pass_cycle());
        assert!(gate.is_open());
    }
    assert_eq!(gate.counted(), WARMUP_CYCLES + 1);
}

#[test]
fn stale_readings_never_published_after_warmup() {
    let mut ctl: Controller<f64> = Controller::new("dev".to_string());
    for _ in 0..30 {
        let (points, slept) = one_cycle(&mut ctl, Some(reading(Freshness::StaleOrUnchanged)), true);
        assert!(points.is_empty());
        assert!(slept);
    }
    assert!(ctl.warmed_up());
    let (points, _) = one_cycle(&mut ctl, Some(reading(Freshness::NewData)), true);
    assert_eq!(points.len(), 4);
}

#[test]
fn measurement_has_tags_and_single_value_field() {
    let p = measurement(FieldKind::Pressure, 1013.0f64, "kitchen");
    assert_eq!(p.series, "sensor");
    assert_eq!(p.field, "value");
    assert_eq!(p.value, 1013.0);
    assert_eq!(
        tags_of(&p),
        vec![
            ("id".to_string(), "kitchen".to_string()),
            ("name".to_string(), "bme680".to_string()),
            ("type".to_string(), "pressure".to_string()),
        ]
    );
}

#[test]
fn type_tags_and_order() {
    let tags: Vec<&str> = FieldKind::all().iter().map(|k| k.type_tag()).collect();
    assert_eq!(tags, vec!["temperature", "pressure", "humidity", "gasresistence"]);
    assert_eq!(FieldKind::Temperature.next(), Some(FieldKind::Pressure));
    assert_eq!(FieldKind::Humidity.next(), Some(FieldKind::GasResistance));
    assert_eq!(FieldKind::GasResistance.next(), None);
}

#[test]
fn reading_values_by_kind() {
    let r = reading(Freshness::NewData);
    assert_eq!(r.value_of(FieldKind::Temperature), 22.5);
    assert_eq!(r.value_of(FieldKind::Pressure), 1013.0);
    assert_eq!(r.value_of(FieldKind::Humidity), 45.0);
    assert_eq!(r.value_of(FieldKind::GasResistance), 1200.0);
    assert!(r.is_new());
    assert!(!reading(Freshness::StaleOrUnchanged).is_new());
}

#[test]
fn failing_writes_do_not_stop_the_loop() {
    let mut ctl: Controller<f64> = Controller::new("dev".to_string());
    let mut total = 0;
    for _ in 0..20 {
        let (points, slept) = one_cycle(&mut ctl, Some(reading(Freshness::NewData)), false);
        assert!(slept);
        total += points.len();
    }
    assert!(!ctl.is_halted());
    assert_eq!(total, 4 * 8);
}

#[test]
fn write_outcome_does_not_change_next_step() {
    let mut a: Controller<f64> = Controller::new("dev".to_string());
    let mut b: Controller<f64> = Controller::new("dev".to_string());
    for _ in 0..12 {
        one_cycle(&mut a, Some(reading(Freshness::NewData)), true);
        one_cycle(&mut b, Some(reading(Freshness::NewData)), true);
    }
    for ctl in [&mut a, &mut b] {
        ctl.step(Event::ModeSet);
        assert!(matches!(ctl.step(Event::Sampled(reading(Freshness::NewData))), Action::Publish(_)));
    }
    let ra = a.step(Event::Written);
    let rb = b.step(Event::WriteFailed);
    match (ra, rb) {
        (Action::Publish(pa), Action::Publish(pb)) => {
            assert_eq!(tags_of(&pa), tags_of(&pb));
            assert_eq!(pa.value, 1013.0);
            assert_eq!(pb.value, 1013.0);
        }
        _ => panic!("both must go on to the pressure"),
    }
}

#[test]
fn sensor_failure_halts_for_good() {
    let mut ctl: Controller<f64> = Controller::new("dev".to_string());
    let (_, slept) = one_cycle(&mut ctl, Some(reading(Freshness::NewData)), true);
    assert!(slept);
    let (points, slept) = one_cycle(&mut ctl, None, true);
    assert!(points.is_empty());
    assert!(!slept);
    assert!(ctl.is_halted());
    for e in [Event::ModeSet, Event::Woke, Event::Sampled(reading(Freshness::NewData)), Event::Written] {
        assert!(matches!(ctl.step(e), Action::Abort));
    }
    assert!(ctl.is_halted());
}

#[test]
fn mode_failure_halts() {
    let mut ctl: Controller<f64> = Controller::new("dev".to_string());
    assert!(matches!(ctl.pending(), Action::SetForcedMode));
    assert!(matches!(ctl.step(Event::ModeFailed), Action::Abort));
    assert!(ctl.is_halted());
}

#[test]
fn unexpected_event_repeats_pending_step() {
    let mut ctl: Controller<f64> = Controller::new("dev".to_string());
    assert!(matches!(ctl.step(Event::Written), Action::SetForcedMode));
    assert!(matches!(ctl.step(Event::ModeSet), Action::ReadSensor));
    assert!(matches!(ctl.step(Event::Woke), Action::ReadSensor));
    assert!(matches!(ctl.step(Event::Sampled(reading(Freshness::NewData))), Action::Sleep(5000)));
    assert!(matches!(ctl.step(Event::ModeSet), Action::Sleep(5000)));
    assert!(matches!(ctl.step(Event::Woke), Action::SetForcedMode));
}

#[test]
fn end_to_end_thirteen_cycles() {
    let settings = DbSettings::from_values(
        Some("u".to_string()),
        Some("p".to_string()),
        Some("d".to_string()),
        Some("1.2.3.4".to_string()),
    )
    .unwrap();
    assert_eq!(settings.user, "u");
    assert_eq!(settings.password, "p");
    assert_eq!(settings.database, "d");
    assert_eq!(settings.address, "1.2.3.4");
    let id = device_id_or_default(None);
    assert_eq!(id, "Default ID");
    let mut ctl: Controller<f64> = Controller::new(id);
    let mut published = Vec::new();
    for _ in 0..13 {
        let (points, slept) = one_cycle(&mut ctl, Some(reading(Freshness::NewData)), true);
        assert!(slept);
        published.extend(points);
    }
    assert_eq!(published.len(), 4);
    let expected = [("temperature", 22.5), ("pressure", 1013.0), ("humidity", 45.0), ("gasresistence", 1200.0)];
    for (p, (kind, value)) in published.iter().zip(expected.iter()) {
        assert_eq!(p.value, *value);
        assert_eq!(
            tags_of(p),
            vec![
                ("id".to_string(), "Default ID".to_string()),
                ("name".to_string(), "bme680".to_string()),
                ("type".to_string(), kind.to_string()),
            ]
        );
    }
}

#[test]
fn device_id_supplied_is_kept() {
    assert_eq!(device_id_or_default(Some("garage".to_string())), "garage");
}

#[test]
fn each_missing_value_is_reported() {
    let s = |v: &str| Some(v.to_string());
    assert_eq!(DbSettings::from_values(None, s("p"), s("d"), s("a")).unwrap_err(), ConfigError::MissingUser);
    assert_eq!(DbSettings::from_values(s("u"), None, s("d"), s("a")).unwrap_err(), ConfigError::MissingPassword);
    assert_eq!(DbSettings::from_values(s("u"), s("p"), None, s("a")).unwrap_err(), ConfigError::MissingDatabase);
    assert_eq!(DbSettings::from_values(s("u"), s("p"), s("d"), None).unwrap_err(), ConfigError::MissingAddress);
    assert_eq!(DbSettings::from_values(None, None, None, None).unwrap_err(), ConfigError::MissingUser);
    assert_eq!(ConfigError::MissingAddress.message(), "the database address is not configured");
    assert_eq!(ConfigError::MissingUser.message(), "the database user is not configured");
}

#[test]
fn deployment_profile_values() {
    let p = SensorProfile::deployment();
    assert_eq!(p.humidity_oversampling, Oversampling::OS2x);
    assert_eq!(p.pressure_oversampling, Oversampling::OS4x);
    assert_eq!(p.temperature_oversampling, Oversampling::OS8x);
    assert_eq!(p.filter, FilterSize::Size3);
    assert_eq!(p.heater_duration_ms, 1500);
    assert_eq!(p.heater_temperature_c, 320);
    assert_eq!(p.ambient_temperature_c, 25);
    assert!(p.run_gas);
}
