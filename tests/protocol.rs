use oshirase::{
    expiry_for, pair_actions, parse_data, pixel_data, plan_command, CloseReason, Command, Event, HintValue,
    Hints, Image, ImageData, NotificationRequest, NotificationServer, Oshirase, Signal, Step,
    LOW_URGENCY_EXPIRY_MS, NORMAL_URGENCY_EXPIRY_MS,
};

fn server() -> NotificationServer {
    NotificationServer::new(Oshirase::<u32>::properties())
}

fn pixels(width: i32) -> ImageData {
    ImageData {
        width,
        height: 2,
        rowstride: width * 3,
        has_alpha: false,
        bits_per_sample: 8,
        channels: 3,
        data: vec![0u8; (width * 6) as usize],
    }
}

fn image_hint(d: &ImageData) -> HintValue {
    HintValue::Struct(vec![
        HintValue::Int32(d.width),
        HintValue::Int32(d.height),
        HintValue::Int32(d.rowstride),
        HintValue::Bool(d.has_alpha),
        HintValue::Int32(d.bits_per_sample),
        HintValue::Int32(d.channels),
        HintValue::Bytes(d.data.clone()),
    ])
}

fn request(app_name: &str, app_icon: &str, body: &str, actions: &[&str], hints: Hints) -> NotificationRequest {
    NotificationRequest {
        app_name: app_name.to_string(),
        app_icon: app_icon.to_string(),
        summary: "Title".to_string(),
        body: body.to_string(),
        actions: actions.iter().map(|a| a.to_string()).collect(),
        hints,
        expire_timeout: -1,
    }
}

fn notify_simple(s: &mut NotificationServer, replaces_id: u32) -> (u32, Command) {
    s.notify(
        "Mail".to_string(),
        replaces_id,
        String::new(),
        "New message".to_string(),
        "You have 3 unread".to_string(),
        Vec::new(),
        Hints::new(),
        -1,
    )
}

/// Runs a command through the presentation side and gives the signals it yields.
fn run_command(table: &mut Oshirase<u32>, cmd: Command) -> Vec<Signal> {
    let mut signals = Vec::new();
    match plan_command(cmd) {
        Step::Show(id, _data, expiry) => {
            let _ = table.open(id, expiry, id);
        }
        Step::Close(id) => {
            let (signal, _) = table.apply_close(id);
            signals.extend(signal);
        }
    }
    signals
}

#[test]
fn fresh_ids_strictly_increase() {
    let mut s = server();
    let mut prev = 0;
    for _ in 0..10 {
        let id = s.allocate_id(0);
        assert!(id > prev);
        prev = id;
    }
    assert_eq!(prev, 10);
    assert_eq!(s.last_issued(), 10);
}

#[test]
fn fresh_ids_unaffected_by_replacing_calls() {
    let mut s = server();
    assert_eq!(s.allocate_id(0), 1);
    assert_eq!(s.allocate_id(42), 42);
    assert_eq!(s.allocate_id(0), 2);
}

#[test]
fn replacing_id_is_returned_unchanged() {
    let mut s = server();
    assert_eq!(s.allocate_id(7), 7);
    assert_eq!(s.allocate_id(u32::MAX), u32::MAX);
    assert_eq!(s.last_issued(), 0);
}

#[test]
fn empty_strings_decode_as_absent() {
    let d = parse_data(request("", "", "", &[], Hints::new()));
    assert_eq!(d.app_name, None);
    assert_eq!(d.body, None);
    assert_eq!(d.image, None);
    assert_eq!(d.summary, "Title");
}

#[test]
fn non_empty_strings_pass_through() {
    let d = parse_data(request("Mail", "mail-icon", "Hello", &[], Hints::new()));
    assert_eq!(d.app_name, Some("Mail".to_string()));
    assert_eq!(d.body, Some("Hello".to_string()));
    assert_eq!(d.image, Some(Image::Path("mail-icon".to_string())));
}

#[test]
fn image_data_wins_over_image_path() {
    let mut h = Hints::new();
    h.insert("image-path".to_string(), HintValue::Text("/tmp/a.png".to_string()));
    h.insert("image-data".to_string(), image_hint(&pixels(4)));
    let d = parse_data(request("", "", "", &[], h));
    assert_eq!(d.image, Some(Image::Data(pixels(4))));
    assert_eq!(d.extra.len(), 0);
}

#[test]
fn malformed_image_data_falls_through() {
    let mut h = Hints::new();
    h.insert("image-data".to_string(), HintValue::Text("not pixels".to_string()));
    h.insert("image_path".to_string(), HintValue::Text("/tmp/b.png".to_string()));
    let d = parse_data(request("", "", "", &[], h));
    assert_eq!(d.image, Some(Image::Path("/tmp/b.png".to_string())));
}

#[test]
fn pixel_record_with_mistyped_field_is_a_miss() {
    let mut fields = match image_hint(&pixels(2)) {
        HintValue::Struct(f) => f,
        _ => unreachable!(),
    };
    fields[3] = HintValue::Int32(1);
    let mut h = Hints::new();
    h.insert("image-data".to_string(), HintValue::Struct(fields));
    h.insert("icon_data".to_string(), image_hint(&pixels(6)));
    let d = parse_data(request("", "", "", &[], h));
    assert_eq!(d.image, Some(Image::Data(pixels(6))));
}

#[test]
fn pixel_record_needs_seven_fields() {
    let short = HintValue::Struct(vec![HintValue::Int32(1), HintValue::Int32(1)]);
    assert_eq!(pixel_data(short), None);
    assert_eq!(pixel_data(HintValue::Bytes(vec![1, 2, 3])), None);
}

#[test]
fn pixel_record_rejects_variant_wrapped_fields() {
    let d = pixels(2);
    let hint = HintValue::Struct(vec![
        HintValue::Variant(Box::new(HintValue::Int32(d.width))),
        HintValue::Int32(d.height),
        HintValue::Int32(d.rowstride),
        HintValue::Bool(d.has_alpha),
        HintValue::Int32(d.bits_per_sample),
        HintValue::Int32(d.channels),
        HintValue::Bytes(d.data.clone()),
    ]);
    assert_eq!(pixel_data(hint), None);
}

#[test]
fn pixel_record_rejects_extra_fields() {
    let mut fields = match image_hint(&pixels(2)) {
        HintValue::Struct(f) => f,
        _ => unreachable!(),
    };
    fields.push(HintValue::Text("extra".to_string()));
    assert_eq!(pixel_data(HintValue::Struct(fields)), None);
    assert_eq!(pixel_data(image_hint(&pixels(2))), Some(pixels(2)));
}

#[test]
fn legacy_image_data_alias() {
    let mut h = Hints::new();
    h.insert("image_data".to_string(), image_hint(&pixels(3)));
    h.insert("image-path".to_string(), HintValue::Text("/tmp/a.png".to_string()));
    let d = parse_data(request("", "icon", "", &[], h));
    assert_eq!(d.image, Some(Image::Data(pixels(3))));
}

#[test]
fn icon_data_used_when_alone() {
    let mut h = Hints::new();
    h.insert("icon_data".to_string(), image_hint(&pixels(5)));
    let d = parse_data(request("", "", "", &[], h));
    assert_eq!(d.image, Some(Image::Data(pixels(5))));
}

#[test]
fn app_icon_comes_before_icon_data() {
    let mut h = Hints::new();
    h.insert("icon_data".to_string(), image_hint(&pixels(5)));
    let d = parse_data(request("", "dialog-info", "", &[], h));
    assert_eq!(d.image, Some(Image::Path("dialog-info".to_string())));
    assert_eq!(d.extra.len(), 0);
}

#[test]
fn odd_action_list_drops_unpaired_entry() {
    let d = parse_data(request("", "", "", &["default", "Open", "reply"], Hints::new()));
    assert_eq!(d.actions, vec![("default".to_string(), "Open".to_string())]);
    let single = vec!["only".to_string()];
    assert!(pair_actions(&single).is_empty());
}

#[test]
fn even_action_list_pairs_in_order() {
    let d = parse_data(request("", "", "", &["a", "A", "b", "B"], Hints::new()));
    assert_eq!(
        d.actions,
        vec![("a".to_string(), "A".to_string()), ("b".to_string(), "B".to_string())]
    );
}

#[test]
fn urgency_hint_decoded_and_consumed() {
    let mut h = Hints::new();
    h.insert("urgency".to_string(), HintValue::Byte(2));
    h.insert("category".to_string(), HintValue::Text("email".to_string()));
    let d = parse_data(request("", "", "", &[], h));
    assert_eq!(d.urgency, 2);
    assert_eq!(d.extra.len(), 1);
    assert_eq!(d.extra.entries()[0].0, "category");
}

#[test]
fn urgency_of_wrong_shape_defaults_to_normal() {
    let mut h = Hints::new();
    h.insert("urgency".to_string(), HintValue::Int32(0));
    let d = parse_data(request("", "", "", &[], h));
    assert_eq!(d.urgency, 1);
}

#[test]
fn expire_timeout_sign_decides() {
    let mut req = request("", "", "", &[], Hints::new());
    req.expire_timeout = 1500;
    assert_eq!(parse_data(req).expire_timeout, Some(1500));
    let mut req = request("", "", "", &[], Hints::new());
    req.expire_timeout = -1;
    assert_eq!(parse_data(req).expire_timeout, None);
    let mut req = request("", "", "", &[], Hints::new());
    req.expire_timeout = 0;
    assert_eq!(parse_data(req).expire_timeout, Some(0));
}

#[test]
fn hints_insert_replaces_and_remove_takes_all() {
    let mut h = Hints::new();
    h.insert("k".to_string(), HintValue::Bool(true));
    h.insert("k".to_string(), HintValue::Bool(false));
    assert_eq!(h.len(), 1);
    assert_eq!(h.get(&"k".to_string()), Some(&HintValue::Bool(false)));
    assert_eq!(h.remove(&"k".to_string()), Some(HintValue::Bool(false)));
    assert_eq!(h.get(&"k".to_string()), None);
    assert_eq!(h.len(), 0);
}

#[test]
fn expiry_by_urgency() {
    let mut h = Hints::new();
    h.insert("urgency".to_string(), HintValue::Byte(0));
    let low = parse_data(request("", "", "", &[], h));
    assert_eq!(expiry_for(&low), Some(LOW_URGENCY_EXPIRY_MS));
    assert_eq!(expiry_for(&low), Some(3500));

    let normal = parse_data(request("", "", "", &[], Hints::new()));
    assert_eq!(expiry_for(&normal), Some(NORMAL_URGENCY_EXPIRY_MS));
    assert_eq!(expiry_for(&normal), Some(5000));

    let mut h = Hints::new();
    h.insert("urgency".to_string(), HintValue::Byte(2));
    let critical = parse_data(request("", "", "", &[], h));
    assert_eq!(expiry_for(&critical), None);

    let mut h = Hints::new();
    h.insert("urgency".to_string(), HintValue::Byte(2));
    let mut req = request("", "", "", &[], h);
    req.expire_timeout = 800;
    assert_eq!(expiry_for(&parse_data(req)), Some(800));
}

#[test]
fn close_reason_codes() {
    assert_eq!(CloseReason::Expired.code(), 1);
    assert_eq!(CloseReason::Dismissed.code(), 2);
    assert_eq!(CloseReason::Closed.code(), 3);
    assert_eq!(CloseReason::Other.code(), 4);
}

#[test]
fn closing_live_id_signals_once() {
    let mut table: Oshirase<u32> = Oshirase::new();
    assert_eq!(table.open(9, Some(100), 90), None);
    assert!(table.contains(9));
    let (sig, res) = table.apply_close(9);
    assert_eq!(sig, Some(Signal::NotificationClosed(9, 3)));
    assert_eq!(res, Some(90));
    assert!(!table.contains(9));
    let (sig, res) = table.apply_close(9);
    assert_eq!(sig, None);
    assert_eq!(res, None);
}

#[test]
fn closing_never_opened_id_signals_nothing() {
    let mut table: Oshirase<u32> = Oshirase::new();
    assert_eq!(table.close(3), None);
    let (sig, _) = table.apply_close(3);
    assert_eq!(sig, None);
}

#[test]
fn expiry_after_dismissal_gives_no_signal() {
    let mut table: Oshirase<u32> = Oshirase::new();
    let serial = table.next_serial();
    let _ = table.open(4, Some(3500), 40);
    let (sig, _) = table.handle_event(4, serial, Event::Close(CloseReason::Dismissed));
    assert_eq!(sig, Some(Signal::NotificationClosed(4, 2)));
    let (sig, _) = table.handle_event(4, serial, Event::Close(CloseReason::Expired));
    assert_eq!(sig, None);
}

#[test]
fn stale_expiry_does_not_close_reopened_record() {
    let mut table: Oshirase<u32> = Oshirase::new();
    let first = table.next_serial();
    let _ = table.open(4, Some(3500), 40);
    let second = table.next_serial();
    assert_ne!(first, second);
    assert_eq!(table.open(4, Some(3500), 41), Some(40));
    let (sig, res) = table.handle_event(4, first, Event::Close(CloseReason::Expired));
    assert_eq!(sig, None);
    assert_eq!(res, None);
    assert!(table.contains(4));
    let (sig, res) = table.handle_event(4, second, Event::Close(CloseReason::Expired));
    assert_eq!(sig, Some(Signal::NotificationClosed(4, 1)));
    assert_eq!(res, Some(41));
}

#[test]
fn close_then_reopen_keeps_new_record() {
    let mut s = server();
    let mut table: Oshirase<u32> = Oshirase::new();
    let (id, cmd) = notify_simple(&mut s, 0);
    run_command(&mut table, cmd);
    let close = s.close_notification(id);
    let (again, reopen) = notify_simple(&mut s, id);
    assert_eq!(again, id);
    assert_eq!(run_command(&mut table, close), vec![Signal::NotificationClosed(id, 3)]);
    assert!(run_command(&mut table, reopen).is_empty());
    assert!(table.contains(id));
}

#[test]
fn reopening_replaces_record() {
    let mut table: Oshirase<u32> = Oshirase::new();
    assert_eq!(table.open(2, None, 20), None);
    assert_eq!(table.open(1, None, 10), None);
    assert_eq!(table.open(1, Some(5), 11), Some(10));
    assert_eq!(table.records().len(), 2);
    assert_eq!(table.records().keys().copied().collect::<Vec<_>>(), vec![1, 2]);
    assert_eq!(table.records()[&1].expiry, Some(5));
    assert_eq!(table.records()[&1].resource, 11);
    assert_eq!(table.records()[&1].serial, 2);
}

#[test]
fn action_events_are_reported() {
    let mut table: Oshirase<u32> = Oshirase::new();
    let serial = table.next_serial();
    let _ = table.open(6, None, 60);
    let (sig, res) = table.handle_event(6, serial, Event::Action("reply".to_string()));
    assert_eq!(sig, Some(Signal::ActionInvoked(6, "reply".to_string())));
    assert_eq!(res, None);
    assert!(table.contains(6));
}

#[test]
fn server_information_and_capabilities() {
    let s = server();
    let (name, vendor, version, spec) = s.get_server_information();
    assert_eq!(name, "Oshirase");
    assert_eq!(vendor, "Kyuuhachi");
    assert_eq!(version, "0.1");
    assert_eq!(spec, "1.2");
    assert_eq!(s.get_capabilities(), vec!["actions", "body", "body-markup", "icon-static"]);
}

#[test]
fn end_to_end_notify_then_close() {
    let mut s = server();
    let mut table: Oshirase<u32> = Oshirase::new();
    let (id, cmd) = notify_simple(&mut s, 0);
    assert_eq!(id, 1);
    match &cmd {
        Command::Open(i, data) => {
            assert_eq!(*i, 1);
            assert_eq!(data.app_name, Some("Mail".to_string()));
            assert_eq!(data.summary, "New message");
            assert_eq!(data.body, Some("You have 3 unread".to_string()));
            assert_eq!(data.expire_timeout, None);
            assert_eq!(data.urgency, 1);
            assert_eq!(data.image, None);
        }
        Command::Close(_) => panic!("expected an open command"),
    }
    assert!(run_command(&mut table, cmd).is_empty());
    let signals = run_command(&mut table, s.close_notification(1));
    assert_eq!(signals, vec![Signal::NotificationClosed(1, 3)]);
    assert!(run_command(&mut table, s.close_notification(1)).is_empty());
}

#[test]
fn end_to_end_replacing_unknown_id() {
    let mut s = server();
    let mut table: Oshirase<u32> = Oshirase::new();
    for expected in 1..=4 {
        let (id, cmd) = notify_simple(&mut s, 0);
        assert_eq!(id, expected);
        run_command(&mut table, cmd);
    }
    let (id, cmd) = notify_simple(&mut s, 5);
    assert_eq!(id, 5);
    assert!(!table.contains(5));
    run_command(&mut table, cmd);
    assert!(table.contains(5));
    assert_eq!(s.last_issued(), 4);
    let (id, _) = notify_simple(&mut s, 0);
    assert_eq!(id, 5);
}
