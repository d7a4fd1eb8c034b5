use redox_drivers::latency::anti_lag::{AntiLagContext, AntiLagVersion};
use redox_drivers::latency::common::{LatencyMarker, LatencyMode};
use redox_drivers::latency::reflex::{ReflexContext, ReflexMode};

#[test]
fn reflex_frames_advance_only_while_on() {
    let mut r = ReflexContext::new().unwrap();
    assert_eq!(r.mode(), ReflexMode::Off);
    assert_eq!(r.begin_frame(), Ok(0));
    assert_eq!(r.begin_frame(), Ok(0));
    assert_eq!(r.set_mode(ReflexMode::from(LatencyMode::Boost)), Ok(()));
    assert_eq!(r.mode(), ReflexMode::LowLatencyBoost);
    assert_eq!(r.begin_frame(), Ok(1));
    assert_eq!(r.begin_frame(), Ok(2));
    assert_eq!(r.mark(LatencyMarker::PresentEnd, 2), Ok(()));
    assert_eq!(r.sleep(), Ok(()));
    r.set_mode(ReflexMode::Off).unwrap();
    assert_eq!(r.begin_frame(), Ok(2));
    let d = ReflexContext::default();
    assert_eq!(d.mode(), ReflexMode::Off);
}

#[test]
fn anti_lag_keeps_mode_and_version() {
    let mut a = AntiLagContext::new().unwrap();
    assert_eq!(a.version(), AntiLagVersion::AntiLag);
    assert_eq!(a.mode(), LatencyMode::Off);
    assert_eq!(a.set_mode(LatencyMode::Boost), Ok(()));
    assert_eq!(a.mode(), LatencyMode::Boost);
    assert_eq!(a.mark(LatencyMarker::InputSample), Ok(()));
    assert_eq!(AntiLagContext::default().version(), AntiLagVersion::AntiLag);
}
