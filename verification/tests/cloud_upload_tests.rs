use recast_core::cloud::profile_workspace;
use recast_core::cloud_upload::{UploadAction, UploadEvent, UploadFlow, UploadPhase};

fn step(f: &mut UploadFlow, e: UploadEvent) -> UploadAction {
    assert!(f.accepts(&e));
    f.step(e)
}

fn accepted(poster: Option<&str>, captions: Option<&str>) -> UploadEvent {
    UploadEvent::InitAccepted {
        recast_id: "r1".into(),
        method: "put".into(),
        poster_method: poster.map(String::from),
        captions_method: captions.map(String::from),
    }
}

#[test]
fn a_full_upload_sends_every_signed_extra_and_ends_with_the_link() {
    let mut f = UploadFlow::start(true, true);
    assert!(matches!(step(&mut f, accepted(Some("PUT"), Some("Put"))), UploadAction::PutVideo));
    assert!(matches!(step(&mut f, UploadEvent::VideoStored), UploadAction::PutPoster));
    assert!(matches!(step(&mut f, UploadEvent::PosterSent(true)), UploadAction::PutCaptions));
    match step(&mut f, UploadEvent::CaptionsSent(false)) {
        UploadAction::Complete { recast_id, has_poster, has_captions } => {
            assert_eq!(recast_id, "r1");
            assert!(has_poster);
            assert!(!has_captions);
        }
        _ => panic!("expected completion"),
    }
    match step(&mut f, UploadEvent::Completed) {
        UploadAction::Share { recast_id } => assert_eq!(recast_id, "r1"),
        _ => panic!("expected share"),
    }
    match step(&mut f, UploadEvent::Shared { slug: "abc".into(), share_url: "https://x/abc".into() }) {
        UploadAction::Finish(r) => {
            assert_eq!(r.recast_id, "r1");
            assert_eq!(r.slug, "abc");
            assert_eq!(r.share_url, "https://x/abc");
        }
        _ => panic!("expected finish"),
    }
    assert_eq!(f.phase, UploadPhase::Done);
    assert!(!f.accepts(&UploadEvent::Completed));
}

#[test]
fn unsigned_or_unrendered_extras_are_skipped() {
    let mut f = UploadFlow::start(true, false);
    step(&mut f, accepted(Some("POST"), Some("PUT")));
    match step(&mut f, UploadEvent::VideoStored) {
        UploadAction::Complete { has_poster, has_captions, .. } => {
            assert!(!has_poster);
            assert!(!has_captions);
        }
        _ => panic!("expected completion"),
    }
}

#[test]
fn a_non_put_provider_is_refused() {
    let mut f = UploadFlow::start(false, false);
    let e = UploadEvent::InitAccepted {
        recast_id: "r".into(),
        method: "POST".into(),
        poster_method: None,
        captions_method: None,
    };
    match step(&mut f, e) {
        UploadAction::Fail(m) => {
            assert_eq!(m, "This storage provider isn't supported by the desktop uploader yet.")
        }
        _ => panic!("expected failure"),
    }
    assert_eq!(f.phase, UploadPhase::Failed);
}

#[test]
fn each_failure_has_its_line() {
    let mut f = UploadFlow::start(false, false);
    match step(&mut f, UploadEvent::InitRejected { status: 401, body: "{}".into() }) {
        UploadAction::Fail(m) => assert_eq!(m, "Your Recast Cloud session expired. Sign in again."),
        _ => panic!(),
    }
    let mut f = UploadFlow::start(false, false);
    step(&mut f, accepted(None, None));
    match step(&mut f, UploadEvent::VideoRejected("403 Forbidden".into())) {
        UploadAction::Fail(m) => assert_eq!(m, "Upload rejected (403 Forbidden)."),
        _ => panic!(),
    }
    let mut f = UploadFlow::start(false, false);
    step(&mut f, accepted(None, None));
    step(&mut f, UploadEvent::VideoStored);
    match step(
        &mut f,
        UploadEvent::CompleteRejected { status: 409, body: r#"{"reason":"upload_missing"}"#.into() },
    ) {
        UploadAction::Fail(m) => assert_eq!(m, "The upload didn't arrive — please try again."),
        _ => panic!(),
    }
    let mut f = UploadFlow::start(false, false);
    step(&mut f, accepted(None, None));
    step(&mut f, UploadEvent::VideoStored);
    step(&mut f, UploadEvent::Completed);
    match step(&mut f, UploadEvent::ShareRejected { status: "500 Internal Server Error".into(), body: "oops".into() }) {
        UploadAction::Fail(m) => assert_eq!(m, "Creating share link failed (500 Internal Server Error): oops"),
        _ => panic!(),
    }
    let mut f = UploadFlow::start(false, false);
    match step(&mut f, UploadEvent::InitSendFailed("dns".into())) {
        UploadAction::Fail(m) => assert_eq!(m, "Upload init failed: dns"),
        _ => panic!(),
    }
}

#[test]
fn the_profile_names_the_default_workspace() {
    assert_eq!(profile_workspace(200, r#"{"defaultWorkspaceId":"ws1"}"#), Some("ws1".to_string()));
    assert_eq!(profile_workspace(500, r#"{"defaultWorkspaceId":"ws1"}"#), None);
    assert_eq!(profile_workspace(200, r#"{"defaultWorkspaceId":7}"#), None);
    assert_eq!(profile_workspace(200, "not json"), None);
}
