use gridui::cmdline::{Cmdline, SpecialChar};
use gridui::debounce::{ResizeRequest, ResizeScheduler, SizeTracker};
use gridui::event::ContentChunk;
use gridui::rpc::{
    attach_options, call_failure_is_fatal, classify_message, decode_failure_is_fatal,
    DecodeFailure, InboundMessage, MessageAction, OutboundCall, PendingCalls,
};

fn chunk(text: &str) -> ContentChunk {
    ContentChunk { attr_id: 0, text: String::from(text) }
}

#[test]
fn cmdline_lifecycle() {
    let mut c = Cmdline::new();
    c.show(vec![chunk("wq")], 2, String::from(":"), String::new(), 0, 0);
    assert!(c.visible);
    assert_eq!(c.pos, 2);
    c.set_pos(1, 0);
    assert_eq!(c.pos, 1);
    c.set_special('^', true);
    assert_eq!(c.special, Some(SpecialChar { ch: '^', shift: true }));
    // a new show clears the pending special char
    c.show(vec![chunk("q")], 1, String::from(":"), String::new(), 0, 0);
    assert_eq!(c.special, None);
    c.dismiss();
    assert!(!c.visible);
}

#[test]
fn cmdline_block_is_append_only_until_hidden() {
    let mut c = Cmdline::new();
    c.block_show(vec![vec![chunk("if x")]]);
    assert!(c.block_visible);
    c.block_append(vec![chunk("  y")]);
    c.block_append(vec![chunk("end")]);
    assert_eq!(c.block_lines.len(), 3);
    c.block_hide();
    assert!(!c.block_visible);
    assert_eq!(c.block_lines.len(), 0);
}

#[test]
fn messages_route_by_kind_and_method() {
    assert_eq!(
        classify_message(&InboundMessage::Response { msgid: 9 }, "ext"),
        MessageAction::DeliverResponse { msgid: 9 }
    );
    assert_eq!(
        classify_message(&InboundMessage::Request { msgid: 1 }, "ext"),
        MessageAction::IgnoreRequest
    );
    assert_eq!(
        classify_message(&InboundMessage::Notification { method: String::from("redraw") }, "ext"),
        MessageAction::DecodeRedraw
    );
    assert_eq!(
        classify_message(&InboundMessage::Notification { method: String::from("ext") }, "ext"),
        MessageAction::DecodeExtension
    );
    assert_eq!(
        classify_message(&InboundMessage::Notification { method: String::from("other") }, "ext"),
        MessageAction::IgnoreNotification
    );
}

#[test]
fn pending_calls_resolve_once() {
    let mut p = PendingCalls::new();
    p.register(4);
    p.register(5);
    assert!(p.resolve(4));
    assert!(!p.resolve(4));
    assert!(p.resolve(5));
    assert!(!p.resolve(6));
}

#[test]
fn failure_severities_follow_the_taxonomy() {
    assert!(call_failure_is_fatal(&OutboundCall::UiAttach));
    assert!(call_failure_is_fatal(&OutboundCall::Input));
    assert!(call_failure_is_fatal(&OutboundCall::TryResizeGrid));
    assert!(!call_failure_is_fatal(&OutboundCall::Echo));
    assert!(!call_failure_is_fatal(&OutboundCall::SetClientInfo));

    assert!(decode_failure_is_fatal(&DecodeFailure::Envelope));
    assert!(decode_failure_is_fatal(&DecodeFailure::RedrawPayload));
    assert!(!decode_failure_is_fatal(&DecodeFailure::ExtensionElement));
}

#[test]
fn attach_asks_for_rgb_linegrid_multigrid() {
    let o = attach_options();
    assert!(o.rgb && o.ext_linegrid && o.ext_multigrid);
    assert!(!o.ext_popupmenu && !o.ext_tabline && !o.ext_cmdline);
}

#[test]
fn a_burst_of_resizes_collapses_into_one_request() {
    let mut d = ResizeScheduler::new();
    let t1 = d.arm(80, 30);
    let t2 = d.arm(100, 40);
    // the superseded timer was cancelled: firing it does nothing
    assert_eq!(d.fire(t1), None);
    // the latest timer fires exactly once, with the latest size
    assert_eq!(d.fire(t2), Some(ResizeRequest { grid: 1, cols: 100, rows: 40 }));
    assert_eq!(d.fire(t2), None);
    assert_eq!(d.fire(t1), None);
}

#[test]
fn resize_requests_never_ask_for_zero_cells() {
    let mut d = ResizeScheduler::new();
    let t = d.arm(0, -3);
    assert_eq!(d.fire(t), Some(ResizeRequest { grid: 1, cols: 1, rows: 1 }));
}

#[test]
fn only_a_changed_allocation_requests_a_resize() {
    let mut t = SizeTracker::new(0, 0);
    assert!(t.on_allocation(800, 600));
    assert!(!t.on_allocation(800, 600));
    assert!(t.on_allocation(800, 601));
}
