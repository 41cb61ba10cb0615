use cargo_version::{derive_next_version, BumpLevel, Version};

fn v(text: &str) -> Version {
    Version::parse(text).unwrap()
}

#[test]
fn it_derives_the_next_version() {
    assert_eq!(derive_next_version(v("1.0.0"), BumpLevel::Major), v("2.0.0"));
}

#[test]
fn pre_one_major_bumps_minor_and_zeroes_patch() {
    assert_eq!(derive_next_version(v("0.3.7"), BumpLevel::Major), v("0.4.0"));
    assert_eq!(derive_next_version(v("0.0.0"), BumpLevel::Major), v("0.1.0"));
}

#[test]
fn pre_one_minor_and_patch_agree() {
    assert_eq!(derive_next_version(v("0.3.7"), BumpLevel::Minor), v("0.3.8"));
    assert_eq!(derive_next_version(v("0.3.7"), BumpLevel::Patch), v("0.3.8"));
}

#[test]
fn release_bumps_zero_lower_numbers() {
    assert_eq!(derive_next_version(v("1.4.2"), BumpLevel::Major), v("2.0.0"));
    assert_eq!(derive_next_version(v("1.4.2"), BumpLevel::Minor), v("1.5.0"));
    assert_eq!(derive_next_version(v("1.4.2"), BumpLevel::Patch), v("1.4.3"));
}

#[test]
fn bumps_drop_pre_release_and_build() {
    let next = derive_next_version(v("1.0.0-alpha.2+exp.1"), BumpLevel::Patch);
    assert_eq!(next.to_string(), "1.0.1");
    assert!(next.pre.is_empty() && next.build.is_empty());
}

#[test]
fn specific_bump_ignores_current_version() {
    let target = v("0.1.0-beta.3");
    assert_eq!(derive_next_version(v("9.9.9"), BumpLevel::Specific(target.clone())), target);
}

#[test]
fn increments_reset_lower_numbers() {
    let mut x = v("3.2.1-rc.1");
    x.increment_minor();
    assert_eq!(x.to_string(), "3.3.0");
    x.increment_major();
    assert_eq!(x.to_string(), "4.0.0");
    x.increment_patch();
    assert_eq!(x.to_string(), "4.0.1");
}
