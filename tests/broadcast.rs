use tcp_broadcast::handler::{on_read, HandlerAction, ReadEvent, READ_BUFFER_SIZE};
use tcp_broadcast::registry::Registry;

fn read_into(data: &[u8]) -> ([u8; READ_BUFFER_SIZE], ReadEvent) {
    let mut buffer = [0u8; READ_BUFFER_SIZE];
    buffer[..data.len()].copy_from_slice(data);
    (buffer, ReadEvent::Received(data.len()))
}

fn connect(registry: &mut Registry<u32>, id: u32) -> usize {
    registry.register(id)
}

#[test]
fn two_clients_both_receive_hello() {
    let mut registry = Registry::new();
    connect(&mut registry, 1);
    connect(&mut registry, 2);
    let (buffer, event) = read_into(b"hello");
    let action = on_read(&buffer, event);
    assert_eq!(action, HandlerAction::Broadcast(b"hello".to_vec()));
    let order = registry.recipients();
    assert_eq!(order, vec![0, 1]);
    let receivers: Vec<u32> = order.iter().map(|&i| *registry.handle(i)).collect();
    assert_eq!(receivers, vec![1, 2]);
}

#[test]
fn immediate_close_finishes_without_broadcast() {
    let mut registry = Registry::new();
    connect(&mut registry, 1);
    let buffer = [0u8; READ_BUFFER_SIZE];
    let action = on_read(&buffer, ReadEvent::Received(0));
    assert_eq!(action, HandlerAction::Finish);
    // The closed client keeps its entry: a later broadcast still targets it.
    assert_eq!(registry.len(), 1);
    connect(&mut registry, 2);
    let (buffer, event) = read_into(b"x");
    assert_eq!(on_read(&buffer, event), HandlerAction::Broadcast(b"x".to_vec()));
    assert_eq!(registry.recipients(), vec![0, 1]);
}

#[test]
fn split_writes_concatenate_to_the_whole_message() {
    let mut registry = Registry::new();
    for id in 1..=3 {
        connect(&mut registry, id);
    }
    let mut delivered: Vec<Vec<u8>> = vec![Vec::new(); 3];
    for chunk in [&b"ab"[..], &b"cd"[..]] {
        let (buffer, event) = read_into(chunk);
        match on_read(&buffer, event) {
            HandlerAction::Broadcast(message) => {
                for i in registry.recipients() {
                    delivered[i].extend_from_slice(&message);
                }
            }
            other => panic!("unexpected action {:?}", other),
        }
    }
    for received in &delivered {
        assert_eq!(received.as_slice(), b"abcd");
    }
}

#[test]
fn merged_read_is_one_broadcast() {
    let (buffer, event) = read_into(b"abcd");
    assert_eq!(on_read(&buffer, event), HandlerAction::Broadcast(b"abcd".to_vec()));
}

#[test]
fn each_read_is_its_own_message() {
    let (first, e1) = read_into(b"ab");
    let (second, e2) = read_into(b"cd");
    assert_eq!(on_read(&first, e1), HandlerAction::Broadcast(b"ab".to_vec()));
    assert_eq!(on_read(&second, e2), HandlerAction::Broadcast(b"cd".to_vec()));
}

#[test]
fn only_the_bytes_read_are_broadcast() {
    let mut buffer = [b'z'; READ_BUFFER_SIZE];
    buffer[..3].copy_from_slice(b"abc");
    assert_eq!(
        on_read(&buffer, ReadEvent::Received(3)),
        HandlerAction::Broadcast(b"abc".to_vec())
    );
}

#[test]
fn full_buffer_read_is_broadcast_whole() {
    let buffer = [b'q'; READ_BUFFER_SIZE];
    assert_eq!(
        on_read(&buffer, ReadEvent::Received(READ_BUFFER_SIZE)),
        HandlerAction::Broadcast(vec![b'q'; READ_BUFFER_SIZE])
    );
}

#[test]
fn invalid_utf8_is_replaced() {
    let (buffer, event) = read_into(&[b'a', 0xff, b'b']);
    assert_eq!(
        on_read(&buffer, event),
        HandlerAction::Broadcast(vec![b'a', 0xef, 0xbf, 0xbd, b'b'])
    );
}

#[test]
fn valid_multibyte_utf8_is_kept() {
    let text = "héllo ✓".as_bytes();
    let (buffer, event) = read_into(text);
    assert_eq!(on_read(&buffer, event), HandlerAction::Broadcast(text.to_vec()));
}

#[test]
fn read_failure_is_fatal() {
    let buffer = [0u8; READ_BUFFER_SIZE];
    assert_eq!(on_read(&buffer, ReadEvent::Failed), HandlerAction::Fail);
}

#[test]
fn registry_never_shrinks() {
    let mut registry = Registry::new();
    for id in 0..5u32 {
        assert_eq!(connect(&mut registry, id), id as usize);
    }
    // Every handler ends on an orderly close; none of them touches the registry.
    let buffer = [0u8; READ_BUFFER_SIZE];
    for _ in 0..5 {
        assert_eq!(on_read(&buffer, ReadEvent::Received(0)), HandlerAction::Finish);
    }
    assert_eq!(registry.len(), 5);
    assert_eq!(registry.recipients(), vec![0, 1, 2, 3, 4]);
    assert_eq!(*registry.handle(3), 3);
}

#[test]
fn empty_registry_has_no_recipients() {
    let registry: Registry<u32> = Registry::new();
    assert_eq!(registry.len(), 0);
    assert!(registry.recipients().is_empty());
}
