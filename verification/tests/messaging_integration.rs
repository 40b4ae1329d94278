use loft::json::Json;
use loft::messaging::{DaemonMessage, ExtensionMessage};
use loft::wire::{check_header, read_nm_message, write_nm_message, WireError, MAX_MESSAGE_LEN};
use tokio::io::{AsyncReadExt, AsyncWriteExt};

fn write_message(buf: &mut Vec<u8>, text: &str) {
    write_nm_message(buf, text.as_bytes()).unwrap();
}

fn read_message(buf: &[u8], at: &mut usize) -> Json {
    let (value, used) = read_nm_message(&buf[*at..]).unwrap();
    *at += used;
    value
}

#[test]
fn wire_format_roundtrip_badge_update() {
    let msg = ExtensionMessage::BadgeUpdate { count: 5 };
    let mut buf = Vec::new();
    write_message(&mut buf, &msg.to_json_string());

    let mut at = 0;
    let result = read_message(&buf, &mut at);
    assert_eq!(ExtensionMessage::from_json(&result), Some(msg));
}

#[test]
fn wire_format_roundtrip_ready() {
    let msg = ExtensionMessage::Ready { service: "whatsapp".to_string() };
    let mut buf = Vec::new();
    write_message(&mut buf, &msg.to_json_string());

    let mut at = 0;
    let result = read_message(&buf, &mut at);
    assert_eq!(result.get("type"), Some(&Json::Str("ready".to_string())));
    assert_eq!(result.get("service"), Some(&Json::Str("whatsapp".to_string())));
}

#[test]
fn wire_format_roundtrip_notification() {
    let msg = ExtensionMessage::Notification {
        title: "New message".to_string(),
        body: "Hello from test".to_string(),
        icon: None,
    };
    let mut buf = Vec::new();
    write_message(&mut buf, &msg.to_json_string());

    let mut at = 0;
    let result = read_message(&buf, &mut at);
    assert_eq!(result.get("type"), Some(&Json::Str("notification".to_string())));
    assert_eq!(result.get("title"), Some(&Json::Str("New message".to_string())));
}

#[test]
fn wire_format_roundtrip_dnd_changed() {
    let msg = DaemonMessage::DndChanged { enabled: true };
    let mut buf = Vec::new();
    write_message(&mut buf, &msg.to_json_string());

    let mut at = 0;
    let result = read_message(&buf, &mut at);
    assert_eq!(result.get("type"), Some(&Json::Str("dnd_changed".to_string())));
    assert_eq!(result.get("enabled"), Some(&Json::Bool(true)));
}

#[test]
fn wire_format_multiple_messages_in_sequence() {
    let messages = vec![
        ExtensionMessage::Ready { service: "whatsapp".to_string() },
        ExtensionMessage::BadgeUpdate { count: 3 },
        ExtensionMessage::BadgeUpdate { count: 0 },
    ];

    let mut buf = Vec::new();
    for msg in &messages {
        write_message(&mut buf, &msg.to_json_string());
    }

    let mut at = 0;
    for expected in &messages {
        let result = read_message(&buf, &mut at);
        assert_eq!(ExtensionMessage::from_json(&result).as_ref(), Some(expected));
    }
    assert_eq!(at, buf.len());
}

#[test]
fn wire_format_message_too_large_is_rejected() {
    let len_bytes = (2_000_000u32).to_le_bytes();
    let mut data = Vec::new();
    data.extend_from_slice(&len_bytes);
    data.extend_from_slice(&[0u8; 100]);

    let mut len_buf = [0u8; 4];
    len_buf.copy_from_slice(&data[..4]);
    let len = u32::from_le_bytes(len_buf) as usize;
    assert!(len > 1_048_576, "Message size should exceed the 1MB limit");
    assert_eq!(MAX_MESSAGE_LEN, 1_048_576);
    assert_eq!(check_header(&len_buf), Err(WireError::MessageTooLarge { len: 2_000_000 }));
    assert_eq!(
        read_nm_message(&data).unwrap_err(),
        WireError::MessageTooLarge { len: 2_000_000 }
    );
}

async fn receive(stream: &mut tokio::net::UnixStream) -> Json {
    let mut header = [0u8; 4];
    stream.read_exact(&mut header).await.unwrap();
    let len = check_header(&header).unwrap();
    let mut body = vec![0u8; len];
    stream.read_exact(&mut body).await.unwrap();
    Json::parse(&body).unwrap()
}

async fn send(stream: &mut tokio::net::UnixStream, text: &str) {
    let frame = loft::wire::encode_frame(text.as_bytes()).unwrap();
    stream.write_all(&frame).await.unwrap();
    stream.flush().await.unwrap();
}

#[test]
fn unix_socket_roundtrip() {
    let runtime = tokio::runtime::Builder::new_current_thread().enable_all().build().unwrap();
    runtime.block_on(async {
        let (mut client, mut server) = tokio::net::UnixStream::pair().unwrap();

        let client_handle = tokio::spawn(async move {
            let msg = ExtensionMessage::BadgeUpdate { count: 7 };
            send(&mut client, &msg.to_json_string()).await;
        });

        let msg = receive(&mut server).await;
        assert_eq!(msg.get("type"), Some(&Json::Str("badge_update".to_string())));
        assert_eq!(msg.get("count"), Some(&Json::UInt(7)));

        client_handle.await.unwrap();
    });
}

#[test]
fn unix_socket_bidirectional() {
    let runtime = tokio::runtime::Builder::new_current_thread().enable_all().build().unwrap();
    runtime.block_on(async {
        let (mut client, mut server) = tokio::net::UnixStream::pair().unwrap();

        let client_handle = tokio::spawn(async move {
            let msg = ExtensionMessage::Ready { service: "messenger".to_string() };
            send(&mut client, &msg.to_json_string()).await;

            let resp = receive(&mut client).await;
            assert_eq!(resp.get("type"), Some(&Json::Str("dnd_changed".to_string())));
            assert_eq!(resp.get("enabled"), Some(&Json::Bool(false)));
            assert_eq!(
                DaemonMessage::from_json(&resp),
                Some(DaemonMessage::DndChanged { enabled: false })
            );
        });

        let msg = receive(&mut server).await;
        assert_eq!(msg.get("type"), Some(&Json::Str("ready".to_string())));
        assert_eq!(msg.get("service"), Some(&Json::Str("messenger".to_string())));

        let frame = loft::relay::command_frame(DaemonMessage::DndChanged { enabled: false });
        {
                    server.write_all(&frame).await.unwrap();
            server.flush().await.unwrap();
        }

        client_handle.await.unwrap();
    });
}
