use amps_rust_ffi::message::Payload;
use amps_rust_ffi::message::Message;
use amps_rust_ffi::subscription::{MessageHandler, Subscription, SubscriptionOptions};

#[test]
fn test_subscription_new() {
    let sub = Subscription::new("sub-123", "orders", Some("price > 100"));
    assert_eq!(sub.sub_id, "sub-123");
    assert_eq!(sub.topic, "orders");
    assert_eq!(sub.filter, Some("price > 100".to_string()));
}

#[test]
fn test_subscription_without_filter() {
    let sub = Subscription::new("sub-456", "trades", None);
    assert_eq!(sub.sub_id, "sub-456");
    assert_eq!(sub.topic, "trades");
    assert_eq!(sub.filter, None);
}

#[test]
fn test_subscription_options_builder() {
    let opts = SubscriptionOptions::new()
        .filter("price > 100")
        .timeout_ms(5000)
        .batch_size(100);

    assert_eq!(opts.filter, Some("price > 100".to_string()));
    assert_eq!(opts.timeout_ms, 5000);
    assert_eq!(opts.batch_size, 100);
}

#[test]
fn test_message_handler_closure_compiles() {
    fn check_handler<T: MessageHandler>(_handler: T) {}

    check_handler(|_msg: &Message| {
        // Handler body
    });
}

#[test]
fn options_default_to_nothing() {
    let opts = SubscriptionOptions::new();
    assert_eq!(opts.filter, None);
    assert_eq!(opts.options, None);
    assert_eq!(opts.timeout_ms, 0);
    assert_eq!(opts.batch_size, 0);
    assert_eq!(opts.top_n, 0);
    assert_eq!(opts.order_by, None);
}

#[test]
fn each_builder_sets_only_its_field() {
    let opts = SubscriptionOptions::new()
        .options("oof")
        .top_n(7)
        .order_by("/price DESC");
    assert_eq!(opts.filter, None);
    assert_eq!(opts.options, Some("oof".to_string()));
    assert_eq!(opts.timeout_ms, 0);
    assert_eq!(opts.batch_size, 0);
    assert_eq!(opts.top_n, 7);
    assert_eq!(opts.order_by, Some("/price DESC".to_string()));

    let again = opts.filter("a").filter("b").top_n(-3);
    assert_eq!(again.filter, Some("b".to_string()));
    assert_eq!(again.top_n, -3);
    assert_eq!(again.options, Some("oof".to_string()));
}

#[test]
fn closure_handler_is_called() {
    let mut count = 0usize;
    {
        let mut handler = |_m: &Message| count += 1;
        let msg = Message {
            raw_topic: None,
            payload: Payload::Present(vec![]),
            raw_command: None,
            raw_sow_key: None,
            raw_bookmark: None,
            raw_sub_id: None,
            raw_command_id: None,
        };
        MessageHandler::on_message(&mut handler, &msg);
        MessageHandler::on_message(&mut handler, &msg);
    }
    assert_eq!(count, 2);
}
