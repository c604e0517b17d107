use lum::gamma::{is_gamma_identity, GammaRamps};

#[test]
fn identity_ramp_steps_by_256() {
    let ramps = GammaRamps::identity();
    assert_eq!(ramps.red[0], 0);
    assert_eq!(ramps.red[1], 256);
    assert_eq!(ramps.red[255], 65280);
    assert_eq!(ramps.red, ramps.green);
    assert_eq!(ramps.red, ramps.blue);
    let raw = ramps.as_raw();
    assert_eq!(raw[0], ramps.red);
    assert_eq!(raw[2][128], 32768);
}

#[test]
fn identity_detection() {
    let ramps = GammaRamps::identity();
    assert!(is_gamma_identity(Some(&ramps)));
    assert!(is_gamma_identity(None));
    let mut warm = GammaRamps::identity();
    warm.blue[255] = 40000;
    assert!(!is_gamma_identity(Some(&warm)));
    let mut dim = GammaRamps::identity();
    dim.red[1] = 255;
    assert!(!is_gamma_identity(Some(&dim)));
}
