use wvr_gui_core::model::{Automation, DataHolder, FilterMode, Lfo, LfoKind};

fn default_lfo() -> Lfo {
    Lfo {
        kind: LfoKind::Sine,
        numerator: 1.0f64.to_bits(),
        denominator: 8.0f64.to_bits(),
        phase: 0.0f64.to_bits(),
        amplitude: 0.0f64.to_bits(),
        signed: false,
    }
}

#[test]
fn automation_for_each_dimension() {
    let l = default_lfo();
    assert_eq!(Lfo::default_lfo(), l);
    assert_eq!(Automation::for_dimension(0), Automation::Off);
    assert_eq!(Automation::for_dimension(1), Automation::Lfo(l));
    assert_eq!(Automation::for_dimension(2), Automation::Lfo2d(l, l));
    assert_eq!(Automation::for_dimension(3), Automation::Lfo3d(l, l, l));
    assert_eq!(Automation::for_dimension(4), Automation::Lfo4d(l, l, l, l));
    assert_eq!(Automation::for_dimension(5), Automation::Off);
}

#[test]
fn replacing_one_oscillator() {
    let l = default_lfo();
    let saw = Lfo { kind: LfoKind::Saw, signed: true, ..l };
    let a = Automation::Lfo3d(l, l, l);
    assert_eq!(a.with_lfo(1, saw), Automation::Lfo3d(l, saw, l));
    assert_eq!(a.with_lfo(3, saw), a);
    assert_eq!(Automation::Off.with_lfo(0, saw), Automation::Off);
    assert_eq!(Automation::Lfo(l).with_lfo(0, saw), Automation::Lfo(saw));
    assert_eq!(Automation::Lfo(l).with_lfo(2, saw), Automation::Lfo(saw));
    assert_eq!(Automation::Lfo2d(l, l).with_lfo(2, saw), Automation::Lfo2d(l, l));
}

#[test]
fn arity_and_fit() {
    let l = default_lfo();
    assert_eq!(Automation::Lfo2d(l, l).arity(), 2);
    assert!(Automation::Lfo2d(l, l).fits(&DataHolder::Float2(0, 0)));
    assert!(!Automation::Lfo2d(l, l).fits(&DataHolder::Float3(0, 0, 0)));
    assert!(Automation::Lfo(l).fits(&DataHolder::Int(4)));
    assert!(!Automation::Lfo(l).fits(&DataHolder::Bool(true)));
    assert!(Automation::Off.fits(&DataHolder::Bool(true)));
    assert_eq!(DataHolder::Float4(1, 2, 3, 4).dimension(), 4);
}

#[test]
fn filter_mode_params_from_values() {
    let r = FilterMode::Rectangle(0, 0, 0, 0);
    assert_eq!(r.with_params(DataHolder::Float4(1, 2, 3, 4)), FilterMode::Rectangle(1, 2, 3, 4));
    assert_eq!(r.with_params(DataHolder::Int(7)), r);
    let p = FilterMode::Particles(10);
    assert_eq!(p.with_params(DataHolder::Int(500)), FilterMode::Particles(500));
    assert_eq!(p.with_params(DataHolder::Int(-1)), p);
    assert_eq!(p.with_params(DataHolder::Float(0)), p);
}
