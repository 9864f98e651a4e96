use stream_rotator::cli::channels_from_args;
use stream_rotator::cli::ArgsError;

fn args(values: &[&str]) -> Vec<String> {
    values.iter().map(|v| v.to_string()).collect()
}

#[test]
fn no_arguments_is_missing_channel() {
    assert_eq!(channels_from_args(&args(&[])), Err(ArgsError::MissingChannel));
}

#[test]
fn one_channel_is_accepted() {
    assert_eq!(channels_from_args(&args(&["alpha"])), Ok(args(&["alpha"])));
}

#[test]
fn two_channels_are_accepted_in_order() {
    assert_eq!(channels_from_args(&args(&["alpha", "beta"])), Ok(args(&["alpha", "beta"])));
}

#[test]
fn extra_arguments_are_ignored() {
    assert_eq!(
        channels_from_args(&args(&["alpha", "beta", "gamma"])),
        Ok(args(&["alpha", "beta"]))
    );
}

#[test]
fn empty_first_channel_is_rejected() {
    assert_eq!(channels_from_args(&args(&[""])), Err(ArgsError::EmptyChannel));
}

#[test]
fn empty_second_channel_is_rejected() {
    assert_eq!(channels_from_args(&args(&["alpha", ""])), Err(ArgsError::EmptyChannel));
}

#[test]
fn empty_third_argument_is_still_ignored() {
    assert_eq!(channels_from_args(&args(&["alpha", "beta", ""])), Ok(args(&["alpha", "beta"])));
}
