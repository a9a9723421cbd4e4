use recast_core::export::align::{
    audio_align_filter, video_align_filter, MAX_CORRECTION_MS, MIN_CORRECTION_MS,
};

#[test]
fn no_measurement_means_no_correction() {
    assert_eq!(audio_align_filter(None), None);
    assert_eq!(video_align_filter(None), None);
}

#[test]
fn sub_threshold_skew_is_left_alone() {
    assert_eq!(audio_align_filter(Some(4)), None);
    assert_eq!(audio_align_filter(Some(-4)), None);
    assert_eq!(audio_align_filter(Some(0)), None);
}

#[test]
fn a_late_track_is_delayed_into_place() {
    assert_eq!(
        audio_align_filter(Some(320)),
        Some("adelay=320:all=1".into())
    );
}

#[test]
fn an_early_track_has_its_head_trimmed() {
    assert_eq!(
        audio_align_filter(Some(-750)),
        Some("atrim=start=0.750,asetpts=PTS-STARTPTS".into())
    );
}

#[test]
fn an_implausible_measurement_is_ignored_rather_than_applied() {
    assert_eq!(audio_align_filter(Some(45_000)), None);
    assert_eq!(audio_align_filter(Some(-45_000)), None);
    assert_eq!(video_align_filter(Some(120_000)), None);
}

#[test]
fn video_shifts_pts_forward_for_a_late_camera() {
    assert_eq!(
        video_align_filter(Some(500)),
        Some("setpts=PTS+0.500/TB".into())
    );
}

#[test]
fn video_trims_the_head_of_an_early_camera() {
    assert_eq!(
        video_align_filter(Some(-1_250)),
        Some("trim=start=1.250,setpts=PTS-STARTPTS".into())
    );
}

#[test]
fn the_threshold_boundary_is_inclusive() {
    assert!(audio_align_filter(Some(MIN_CORRECTION_MS)).is_some());
    assert!(audio_align_filter(Some(MAX_CORRECTION_MS)).is_some());
    assert!(audio_align_filter(Some(MAX_CORRECTION_MS + 1)).is_none());
}

#[test]
fn the_extreme_offsets_are_ignored_without_overflow() {
    assert_eq!(audio_align_filter(Some(i64::MIN)), None);
    assert_eq!(video_align_filter(Some(i64::MAX)), None);
    assert_eq!(
        video_align_filter(Some(-MAX_CORRECTION_MS)),
        Some("trim=start=30.000,setpts=PTS-STARTPTS".into())
    );
}
