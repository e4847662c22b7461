use requestid::RequestContext;
use requestid::RequestID;
use requestid::RequestIdMiddleware;
use requestid::RequestIdService;
use requestid::DEFAULT_ID_HEAD_NAME;

#[test]
fn test_none_head() {
    let head_name = "my_id";
    let middleware = RequestIdMiddleware::new(head_name);
    assert_eq!(middleware.head_name, "my_id");
    let service = middleware.service();
    let mut ctx = RequestContext::new();

    let (id, diag) = service.on_request(&None, &mut ctx);
    assert!(!id.value().is_empty());
    assert_eq!(ctx.peek().unwrap().value(), id.value());
    assert!(!diag);

    let update = service.response_header_update(&None, &id);
    assert!(!update.unwrap().value().is_empty());
}

#[test]
fn test_exist_head() {
    let value = "123456";
    let middleware = RequestIdMiddleware::default();
    let service = middleware.service();
    let mut ctx = RequestContext::new();

    let inbound = Some(value.as_bytes().to_vec());
    let (id, diag) = service.on_request(&inbound, &mut ctx);
    assert_eq!(id.value().as_str(), value);
    assert_eq!(ctx.peek().unwrap().value().as_str(), value);
    assert!(!diag);

    let update = service.response_header_update(&None, &id);
    assert_eq!(update.unwrap().value().as_str(), value);
}

#[test]
fn test_invalid_head_regenerated() {
    let service = RequestIdService::new(DEFAULT_ID_HEAD_NAME);
    let mut ctx = RequestContext::new();

    let inbound = Some(b"bad\nvalue".to_vec());
    let (id, diag) = service.on_request(&inbound, &mut ctx);
    assert!(diag);
    assert_ne!(id.value().as_str(), "bad\nvalue");
    assert_eq!(id.value().len(), 36);
    assert_eq!(ctx.peek().unwrap().value(), id.value());
}

#[test]
fn test_empty_head_regenerated() {
    let service = RequestIdService::new(DEFAULT_ID_HEAD_NAME);
    let mut ctx = RequestContext::new();

    let (id, diag) = service.on_request(&Some(Vec::new()), &mut ctx);
    assert!(diag);
    assert!(!id.value().is_empty());
}

#[test]
fn test_diagnostic_message() {
    let service = RequestIdService::new("request_id");
    let mut ctx = RequestContext::new();
    let (id, diag) = service.on_request(&Some(b"a\nb".to_vec()), &mut ctx);
    assert!(diag);
    let expected = format!(
        "This request header allows only visible ASCII characters, which will be overwritten. id:{}, head:request_id",
        id.value()
    );
    assert_eq!(service.diagnostic_message(&id), expected);
}

#[test]
fn test_generated_ids_fresh_per_request() {
    let a = RequestID::new();
    let b = RequestID::new();
    assert_eq!(a.value().len(), 36);
    assert_eq!(b.value().len(), 36);
    for (i, c) in a.value().chars().enumerate() {
        if i == 8 || i == 13 || i == 18 || i == 23 {
            assert_eq!(c, '-');
        } else {
            assert!(c.is_ascii_digit() || ('a'..='f').contains(&c));
        }
    }
    assert_ne!(a.value(), b.value());
    assert!(a != b);
    assert!(a == a.clone());
}

#[test]
fn test_from_header_bytes() {
    let id = RequestID::from_header_bytes(&b"123456".to_vec()).unwrap();
    assert_eq!(id.value().as_str(), "123456");

    assert!(RequestID::from_header_bytes(&Vec::new()).is_none());
    assert!(RequestID::from_header_bytes(&b"a\nb".to_vec()).is_none());
    assert!(RequestID::from_header_bytes(&b"with space".to_vec()).is_none());
    assert!(RequestID::from_header_bytes(&vec![0xffu8]).is_none());

    let full = RequestID::from_header_bytes(&b"!~Az09-".to_vec()).unwrap();
    assert_eq!(full.value().as_str(), "!~Az09-");
}

#[test]
fn test_context_caches_once() {
    let mut ctx = RequestContext::new();
    assert!(ctx.peek().is_none());

    let first = ctx.get_or_create();
    let second = ctx.get_or_create();
    assert_eq!(first.value(), second.value());
    assert!(first == second);
    assert_eq!(ctx.peek().unwrap().value(), first.value());
}

#[test]
fn test_context_set_is_trusted() {
    let mut ctx = RequestContext::new();
    let trusted = RequestID::from_header_bytes(&b"123456".to_vec()).unwrap();
    ctx.set(trusted.clone());
    assert_eq!(ctx.get_or_create().value().as_str(), "123456");
    assert_eq!(ctx.peek().unwrap().value().as_str(), "123456");

    let other = RequestID::from_header_bytes(&b"654321".to_vec()).unwrap();
    ctx.set(other);
    assert_eq!(ctx.peek().unwrap().value().as_str(), "654321");
}

#[test]
fn test_response_respects_handler_value() {
    let service = RequestIdService::new(DEFAULT_ID_HEAD_NAME);
    let resolved = RequestID::from_header_bytes(&b"123456".to_vec()).unwrap();
    let existing = Some(b"handler-set".to_vec());
    assert!(service.response_header_update(&existing, &resolved).is_none());
}

#[test]
fn test_response_inserts_when_absent() {
    let service = RequestIdService::new(DEFAULT_ID_HEAD_NAME);
    let resolved = RequestID::from_header_bytes(&b"123456".to_vec()).unwrap();
    let update = service.response_header_update(&None, &resolved).unwrap();
    assert_eq!(update.value().as_str(), "123456");
}

#[test]
fn test_default_head_name() {
    assert_eq!(DEFAULT_ID_HEAD_NAME, "request_id");
    let middleware = RequestIdMiddleware::default();
    assert_eq!(middleware.head_name, "request_id");
    let service = middleware.service();
    assert_eq!(service.head_name, "request_id");
}

#[test]
fn test_log_format() {
    let middleware = RequestIdMiddleware::default();
    assert_eq!(
        middleware.log_format(),
        "[%{request_id}i] %a %r %s %b %{Referer}i %{User-Agent}i %T"
    );
    let custom = RequestIdMiddleware::new("my_request_id");
    assert_eq!(
        custom.log_format(),
        "[%{my_request_id}i] %a %r %s %b %{Referer}i %{User-Agent}i %T"
    );
}
