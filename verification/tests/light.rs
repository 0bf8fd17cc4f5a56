use belugasnooze::light::{
    IlluminateStep, Illumination, LightControl, LimitMinutes, TurnOnStep,
};

#[test]
fn light_limit_seconds() {
    assert!(!LightControl::light_limit(300, &LimitMinutes::Five));
    assert!(LightControl::light_limit(301, &LimitMinutes::Five));
    assert!(!LightControl::light_limit(900, &LimitMinutes::Fifteen));
    assert!(LightControl::light_limit(901, &LimitMinutes::Fifteen));
    assert!(!LightControl::light_limit(0, &LimitMinutes::Five));
}

#[test]
fn limit_minutes_text() {
    assert_eq!(LimitMinutes::Five.to_text(), "5");
    assert_eq!(LimitMinutes::Fifteen.to_text(), "15");
    assert_eq!(LimitMinutes::Five.seconds(), 300);
    assert_eq!(LimitMinutes::Fifteen.seconds(), 900);
}

#[test]
fn turn_ons() {
    assert_eq!(LightControl::turn_on(false, 0), TurnOnStep::Finished);
    assert_eq!(LightControl::turn_on(false, 1000), TurnOnStep::Finished);
    assert_eq!(LightControl::turn_on(true, 299), TurnOnStep::KeepOn);
    assert_eq!(LightControl::turn_on(true, 300), TurnOnStep::KeepOn);
    assert_eq!(LightControl::turn_on(true, 301), TurnOnStep::SwitchOff);
}

#[test]
fn illumination_full_sequence() {
    let mut ill = Illumination::new();
    assert_eq!(ill.step(), 0);
    assert_eq!(ill.brightness_tenths(), 1);
    for step in 0..9u64 {
        assert_eq!(ill.limit(), LimitMinutes::Five);
        assert_eq!(LightControl::alarm_illuminate(&mut ill, true, 300), IlluminateStep::Hold);
        assert_eq!(LightControl::alarm_illuminate(&mut ill, true, 301), IlluminateStep::Brighten { brightness_tenths: step + 2 });
        assert_eq!(ill.step(), step + 1);
    }
    assert_eq!(ill.brightness_tenths(), 10);
    assert_eq!(ill.limit(), LimitMinutes::Fifteen);
    assert_eq!(LightControl::alarm_illuminate(&mut ill, true, 301), IlluminateStep::Hold);
    assert_eq!(LightControl::alarm_illuminate(&mut ill, true, 900), IlluminateStep::Hold);
    assert_eq!(LightControl::alarm_illuminate(&mut ill, true, 901), IlluminateStep::Finish { brightness_tenths: 11 });
    assert_eq!(ill.step(), 10);
    assert_eq!(LightControl::alarm_illuminate(&mut ill, false, 0), IlluminateStep::Stopped);
    assert_eq!(ill.step(), 10);
}

#[test]
fn illumination_stops_when_light_switched_off() {
    let mut ill = Illumination::new();
    assert_eq!(LightControl::alarm_illuminate(&mut ill, true, 400), IlluminateStep::Brighten { brightness_tenths: 2 });
    assert_eq!(LightControl::alarm_illuminate(&mut ill, false, 400), IlluminateStep::Stopped);
    assert_eq!(ill.step(), 1);
    assert_eq!(ill.brightness_tenths(), 2);
}

#[test]
fn rainbow_forward_then_back() {
    let frames = LightControl::rainbow(false);
    assert_eq!(frames.len(), 16);
    assert_eq!(frames[0], (0, (255, 0, 0)));
    assert_eq!(frames[1], (1, (255, 127, 0)));
    assert_eq!(frames[5], (5, (39, 0, 51)));
    assert_eq!(frames[7], (7, (255, 255, 255)));
    assert_eq!(frames[8], (7, (255, 255, 255)));
    assert_eq!(frames[9], (6, (139, 0, 255)));
    assert_eq!(frames[15], (0, (255, 0, 0)));
    for i in 0..16 {
        assert_eq!(frames[i], frames[15 - i]);
    }
}

#[test]
fn rainbow_skipped_when_light_on() {
    assert!(LightControl::rainbow(true).is_empty());
}

#[test]
fn illumination_starts_with_light_on() {
    let (mut progress, status, brightness) = LightControl::start_alarm_illumination();
    assert!(status);
    assert_eq!(brightness, 1);
    assert_eq!(progress.step(), 0);
    assert_eq!(progress.brightness_tenths(), 1);
    assert_eq!(LightControl::alarm_illuminate(&mut progress, status, 0), IlluminateStep::Hold);
}
