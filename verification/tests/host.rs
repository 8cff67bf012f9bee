use advanced_computer_controller::host::DISTRO_VARIABLE;
use advanced_computer_controller::Host;

#[test]
fn the_distribution_is_named_under_a_fixed_variable() {
    assert_eq!(DISTRO_VARIABLE, "WSL_DISTRO_NAME");
}

#[test]
fn a_windows_build_is_a_windows_host() {
    assert_eq!(Host::detect(true, false, false), Host::Windows);
    assert_eq!(Host::detect(true, false, true), Host::Windows);
}

#[test]
fn windows_wins_over_every_other_fact() {
    assert_eq!(Host::detect(true, true, false), Host::Windows);
    assert_eq!(Host::detect(true, true, true), Host::Windows);
}

#[test]
fn linux_with_a_named_distribution_is_bridged() {
    assert_eq!(Host::detect(false, true, true), Host::Bridged);
}

#[test]
fn linux_without_a_named_distribution_is_other() {
    assert_eq!(Host::detect(false, true, false), Host::Other);
}

#[test]
fn a_named_distribution_elsewhere_is_other() {
    assert_eq!(Host::detect(false, false, true), Host::Other);
    assert_eq!(Host::detect(false, false, false), Host::Other);
}
