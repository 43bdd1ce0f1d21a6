use frame_combinators::{Frame, InspectErr, InspectFrame, MapErr, MapFrame, Outcome, SizeHint};

type Trailers = Vec<(String, String)>;
type Out = Outcome<Vec<u8>, Trailers, String>;

fn trailers(k: &str, v: &str) -> Trailers {
    vec![(k.to_string(), v.to_string())]
}

fn script() -> Vec<Out> {
    vec![
        Outcome::Pending,
        Outcome::Done(Frame::Data(b"ab".to_vec())),
        Outcome::Failed("boom".to_string()),
        Outcome::Pending,
        Outcome::Done(Frame::Data(b"cd".to_vec())),
        Outcome::Done(Frame::Trailers(trailers("k", "v"))),
        Outcome::Ended,
    ]
}

#[test]
fn inspect_frame_shows_each_produced_frame_once_and_in_order() {
    let mut seen: Vec<Frame<Vec<u8>, Trailers>> = Vec::new();
    let mut returned: Vec<Out> = Vec::new();
    {
        let mut body = InspectFrame::new((), |frame: &Frame<Vec<u8>, Trailers>| {
            seen.push(frame.clone())
        });
        for polled in script() {
            returned.push(body.poll_frame(polled));
        }
    }
    assert_eq!(returned, script());
    assert_eq!(
        seen,
        vec![
            Frame::Data(b"ab".to_vec()),
            Frame::Data(b"cd".to_vec()),
            Frame::Trailers(trailers("k", "v")),
        ]
    );
}

#[test]
fn inspect_frame_is_silent_without_frames() {
    let mut calls: u32 = 0;
    {
        let mut body = InspectFrame::new((), |_: &Frame<Vec<u8>, Trailers>| calls += 1);
        let pending: Out = Outcome::Pending;
        let failed: Out = Outcome::Failed("e".to_string());
        let ended: Out = Outcome::Ended;
        assert_eq!(body.poll_frame(pending), Outcome::Pending);
        assert_eq!(body.poll_frame(failed), Outcome::Failed("e".to_string()));
        assert_eq!(body.poll_frame(ended), Outcome::Ended);
    }
    assert_eq!(calls, 0);
}

#[test]
fn inspect_frame_callback_runs_before_the_frame_is_returned() {
    let mut log: Vec<&'static str> = Vec::new();
    {
        let mut body = InspectFrame::new((), |_: &Frame<u8, ()>| log.push("callback"));
        let out: Outcome<u8, (), ()> = body.poll_frame(Outcome::Done(Frame::Data(1)));
        assert_eq!(out, Outcome::Done(Frame::Data(1)));
    }
    log.push("returned");
    assert_eq!(log, vec!["callback", "returned"]);
}

#[test]
fn inspect_frame_forwards_size_hint_and_end() {
    let body = InspectFrame::new((), |_: &Frame<u8, ()>| {});
    let hint = SizeHint { lower: 3, upper: Some(10) };
    assert_eq!(body.size_hint(hint), hint);
    assert_eq!(body.size_hint(SizeHint::new()), SizeHint { lower: 0, upper: None });
    assert!(body.is_end_stream(true));
    assert!(!body.is_end_stream(false));
}

#[test]
fn inspect_frame_hands_out_its_source() {
    let mut body = InspectFrame::new(5u32, |_: &Frame<u8, ()>| {});
    assert_eq!(*body.get_ref(), 5);
    *body.get_mut() = 8;
    assert_eq!(*body.get_ref(), 8);
    let out: Outcome<u8, (), ()> = body.poll_frame(Outcome::Pending);
    assert_eq!(out, Outcome::Pending);
    assert_eq!(body.into_inner(), 8);
}

#[test]
fn map_frame_transforms_payloads_only() {
    let mut body = MapFrame::new((), |d: Vec<u8>| d.len());
    let data: Out = Outcome::Done(Frame::Data(b"abc".to_vec()));
    assert_eq!(body.poll_frame(data), Outcome::Done(Frame::Data(3usize)));
    let tr: Out = Outcome::Done(Frame::Trailers(trailers("k", "v")));
    assert_eq!(
        body.poll_frame(tr),
        Outcome::Done(Frame::Trailers(trailers("k", "v")))
    );
    let pending: Out = Outcome::Pending;
    assert_eq!(body.poll_frame(pending), Outcome::Pending);
    let failed: Out = Outcome::Failed("e".to_string());
    assert_eq!(body.poll_frame(failed), Outcome::Failed("e".to_string()));
    let ended: Out = Outcome::Ended;
    assert_eq!(body.poll_frame(ended), Outcome::Ended);
    assert!(body.is_end_stream(true));
    assert!(!body.is_end_stream(false));
}

#[test]
fn map_frame_changes_the_payload() {
    let mut body = MapFrame::new((), |d: u8| d + 1);
    let out: Outcome<u8, (), ()> = body.poll_frame(Outcome::Done(Frame::Data(41)));
    assert_eq!(out, Outcome::Done(Frame::Data(42)));
}

#[test]
fn map_frame_with_identity_returns_the_source_outcomes() {
    let mut body = MapFrame::new((), |d: Vec<u8>| d);
    let returned: Vec<Out> = script().into_iter().map(|o| body.poll_frame(o)).collect();
    assert_eq!(returned, script());
}

#[test]
fn map_frame_hands_out_its_source() {
    let mut body = MapFrame::new(1u8, |d: u8| d);
    assert_eq!(*body.get_ref(), 1);
    *body.get_mut() = 2;
    assert_eq!(body.into_inner(), 2);
}

#[test]
fn map_err_transforms_errors_only() {
    let mut body = MapErr::new((), |e: String| e.len());
    let failed: Out = Outcome::Failed("boom".to_string());
    assert_eq!(body.poll_frame(failed), Outcome::Failed(4usize));
    let data: Out = Outcome::Done(Frame::Data(b"ab".to_vec()));
    assert_eq!(body.poll_frame(data), Outcome::Done(Frame::Data(b"ab".to_vec())));
    let pending: Out = Outcome::Pending;
    assert_eq!(body.poll_frame(pending), Outcome::Pending);
    let ended: Out = Outcome::Ended;
    assert_eq!(body.poll_frame(ended), Outcome::Ended);
    let hint = SizeHint::with_exact(4);
    assert_eq!(body.size_hint(hint), hint);
    assert!(body.is_end_stream(true));
}

#[test]
fn map_err_hands_out_its_source() {
    let mut body = MapErr::new(1u8, |e: u8| e);
    assert_eq!(*body.get_ref(), 1);
    *body.get_mut() = 2;
    assert_eq!(body.into_inner(), 2);
}

#[test]
fn inspect_err_shows_errors_only() {
    let mut seen: Vec<String> = Vec::new();
    let mut returned: Vec<Out> = Vec::new();
    {
        let mut body = InspectErr::new((), |e: &String| seen.push(e.clone()));
        for polled in script() {
            returned.push(body.poll_frame(polled));
        }
        let hint = SizeHint { lower: 1, upper: None };
        assert_eq!(body.size_hint(hint), hint);
        assert!(!body.is_end_stream(false));
    }
    assert_eq!(returned, script());
    assert_eq!(seen, vec!["boom".to_string()]);
}

#[test]
fn inspect_err_hands_out_its_source() {
    let mut body = InspectErr::new(1u8, |_: &u8| {});
    assert_eq!(*body.get_ref(), 1);
    *body.get_mut() = 2;
    assert_eq!(body.into_inner(), 2);
}

#[test]
fn frame_knows_its_kind() {
    let d: Frame<u8, u8> = Frame::Data(1);
    let t: Frame<u8, u8> = Frame::Trailers(1);
    assert!(d.is_data());
    assert!(!d.is_trailers());
    assert!(t.is_trailers());
    assert!(!t.is_data());
}

#[test]
fn size_hint_bounds() {
    assert_eq!(SizeHint::new(), SizeHint { lower: 0, upper: None });
    assert_eq!(SizeHint::with_exact(7), SizeHint { lower: 7, upper: Some(7) });
    assert_eq!(SizeHint::with_exact(7).exact(), Some(7));
    assert_eq!(SizeHint::new().exact(), None);
    assert_eq!(SizeHint { lower: 1, upper: Some(2) }.exact(), None);
}
