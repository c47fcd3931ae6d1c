//! Tests of the decision functions the derived getters and the facade
//! route their replies through: sentinel comparisons, the fallback, the
//! frame-size combiner, and the buffer-open flag rule.

use mediainfo::convenience_api::buffer_flags_ok;
use mediainfo::streams::apply_fallback;
use mediainfo::streams::channel_count_is;
use mediainfo::streams::combine_frame_size;
use mediainfo::streams::mode_is_constant;
use mediainfo::streams::scan_is_interlaced;
use mediainfo::MediaInfoError;

#[test]
fn mode_is_constant_compares_against_the_sentinel() {
    assert!(mode_is_constant(&Ok("Constant".to_string())));
    assert!(!mode_is_constant(&Ok("Variable".to_string())));
    assert!(!mode_is_constant(&Ok("constant".to_string())));
    assert!(!mode_is_constant(&Err(MediaInfoError::ZeroLengthResult)));
    assert!(!mode_is_constant(&Err(MediaInfoError::NoSessionOpen)));
}

#[test]
fn scan_is_interlaced_compares_against_the_sentinel() {
    assert!(scan_is_interlaced(&Ok("Interlaced".to_string())));
    assert!(!scan_is_interlaced(&Ok("Progressive".to_string())));
    assert!(!scan_is_interlaced(&Err(MediaInfoError::DecodingFailure)));
}

#[test]
fn channel_count_decides_stereo_and_mono() {
    assert!(channel_count_is(&Ok(2), 2));
    assert!(!channel_count_is(&Ok(2), 1));
    assert!(channel_count_is(&Ok(1), 1));
    assert!(!channel_count_is(&Ok(6), 2));
    assert!(!channel_count_is(&Err(MediaInfoError::ZeroLengthResult), 2));
}

#[test]
fn fallback_prefers_the_primary_and_passes_the_secondary_unchanged() {
    assert_eq!(
        apply_fallback(Ok("primary".to_string()), Ok("secondary".to_string())),
        Ok("primary".to_string())
    );
    assert_eq!(
        apply_fallback(
            Err(MediaInfoError::ZeroLengthResult),
            Ok("secondary".to_string())
        ),
        Ok("secondary".to_string())
    );
    assert_eq!(
        apply_fallback(
            Err(MediaInfoError::DecodingFailure),
            Err(MediaInfoError::NonNumericResult)
        ),
        Err(MediaInfoError::NonNumericResult)
    );
}

#[test]
fn frame_size_combiner_lets_the_height_error_win() {
    assert_eq!(combine_frame_size(Ok(320), Ok(560)), Ok("560x320".to_string()));
    assert_eq!(
        combine_frame_size(Err(MediaInfoError::ZeroLengthResult), Ok(560)),
        Err(MediaInfoError::ZeroLengthResult)
    );
    assert_eq!(
        combine_frame_size(Ok(320), Err(MediaInfoError::NonNumericResult)),
        Err(MediaInfoError::NonNumericResult)
    );
    assert_eq!(
        combine_frame_size(
            Err(MediaInfoError::DecodingFailure),
            Err(MediaInfoError::NonNumericResult)
        ),
        Err(MediaInfoError::DecodingFailure)
    );
}

#[test]
fn buffer_flags_need_the_continue_bit_and_a_nonzero_finalize() {
    assert!(buffer_flags_ok(1, 1));
    assert!(buffer_flags_ok(3, 7));
    assert!(!buffer_flags_ok(0, 1));
    assert!(!buffer_flags_ok(2, 1));
    assert!(!buffer_flags_ok(1, 0));
    assert!(!buffer_flags_ok(0, 0));
}
