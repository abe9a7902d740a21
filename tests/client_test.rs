use embedded_recruitment_task::connection::{Action, Client, BUFFER_SIZE};
use embedded_recruitment_task::message::{respond, ClientRequest, ServerReply, BAD_REQUEST, SHUTTING_DOWN};
use embedded_recruitment_task::registry::Registry;
use embedded_recruitment_task::server::{Phase, Server, StepResult};

fn echo(content: &str) -> Option<ClientRequest> {
    Some(ClientRequest::Echo { content: content.to_string() })
}

fn running_server() -> Server {
    let mut server = Server::new();
    assert!(server.run(), "Failed to start server");
    server
}

#[test]
fn test_client_connection() {
    let mut server = running_server();
    let id = server.accept().expect("Failed to connect to the server");
    assert_eq!(server.connections(), vec![id]);
    let client = Client::new(id);
    assert_eq!(client.handle(0, None), Action::Close);
    assert!(!server.keep_serving(StepResult::Closed));
    server.finish(client.id());
    assert!(server.connections().is_empty(), "Failed to disconnect from the server");
    assert!(server.stop().is_some());
    assert_eq!(server.phase(), Phase::Stopped);
}

#[test]
fn test_client_echo_message() {
    let mut server = running_server();
    let client = Client::new(server.accept().expect("Failed to connect to the server"));
    let reply = client.handle(15, echo("Hello, World!"));
    assert_eq!(
        reply,
        Action::Reply(ServerReply::Echo { content: "Hello, World!".to_string() }),
        "Echoed message content does not match"
    );
    assert!(server.keep_serving(StepResult::Replied));
}

#[test]
fn test_multiple_echo_messages() {
    let mut server = running_server();
    let client = Client::new(server.accept().expect("Failed to connect to the server"));
    for text in ["Hello, World!", "How are you?", "Goodbye!"] {
        let reply = client.handle(text.len() + 2, echo(text));
        assert_eq!(reply, Action::Reply(ServerReply::Echo { content: text.to_string() }));
        assert!(server.keep_serving(StepResult::Replied));
    }
}

#[test]
fn test_multiple_clients() {
    let mut server = running_server();
    let texts = ["Hello, World!", "How are you?", "Goodbye!"];
    let mut clients = Vec::new();
    for _ in 0..3 {
        clients.push(Client::new(server.accept().expect("Failed to connect to the server")));
    }
    assert_eq!(server.connections(), vec![0, 1, 2]);
    for (client, text) in clients.iter().zip(texts.iter()) {
        let reply = client.handle(text.len() + 2, echo(text));
        assert_eq!(reply, Action::Reply(ServerReply::Echo { content: text.to_string() }));
    }
    for client in &clients {
        server.finish(client.id());
    }
    assert!(server.connections().is_empty());
}

#[test]
fn test_client_add_request() {
    let reply = respond(Some(ClientRequest::Add { a: 10, b: 20 }));
    assert_eq!(reply, ServerReply::Add { result: 30 }, "AddResponse result does not match");
}

#[test]
fn test_parallel_client_requests() {
    let mut server = running_server();
    let mut clients = Vec::new();
    for _ in 0..10 {
        clients.push(Client::new(server.accept().expect("Failed to connect to the server")));
    }
    for (i, client) in clients.iter().enumerate() {
        let text = format!("Hello, World From Client {}!", i);
        let reply = client.handle(text.len() + 2, echo(&text));
        assert_eq!(reply, Action::Reply(ServerReply::Echo { content: text }));
        let reply = client.handle(4, Some(ClientRequest::Add { a: i as i32, b: 2 * i as i32 }));
        assert_eq!(reply, Action::Reply(ServerReply::Add { result: 3 * i as i32 }));
    }
}

#[test]
fn test_client_bad_request() {
    let client = Client::new(0);
    // Four bytes that did not decode.
    let reply = client.handle(4, None);
    assert_eq!(reply, Action::Reply(ServerReply::Error { content: "Bad Request!".to_string() }));
}

#[test]
fn test_server_failure() {
    let mut server = running_server();
    let id = server.accept().expect("Failed to connect to the server");
    let client = Client::new(id);
    for i in 0..3 {
        let text = format!("Message #{}", i);
        assert_eq!(
            client.handle(text.len() + 2, echo(&text)),
            Action::Reply(ServerReply::Echo { content: text })
        );
        assert!(server.keep_serving(StepResult::Replied));
    }
    let (targets, notice) = server.stop().expect("running server must stop");
    assert_eq!(targets, vec![id]);
    assert_eq!(notice, ServerReply::Error { content: "Server is shutting down.".to_string() });
    assert!(!server.keep_serving(StepResult::Replied));
    server.finish(id);
    assert!(server.connections().is_empty(), "Client failed to disconnect properly");
}

#[test]
fn add_overflow_wraps() {
    let reply = respond(Some(ClientRequest::Add { a: i32::MAX, b: 1 }));
    assert_eq!(reply, ServerReply::Add { result: i32::MIN });
    let reply = respond(Some(ClientRequest::Add { a: -7, b: 3 }));
    assert_eq!(reply, ServerReply::Add { result: -4 });
}

#[test]
fn empty_request_is_bad() {
    assert_eq!(respond(Some(ClientRequest::Empty)), ServerReply::Error { content: BAD_REQUEST.to_string() });
    assert_eq!(respond(None), ServerReply::Error { content: "Bad Request!".to_string() });
}

#[test]
fn echo_of_empty_and_full_buffer() {
    let client = Client::new(3);
    assert_eq!(client.id(), 3);
    assert_eq!(client.handle(2, echo("")), Action::Reply(ServerReply::Echo { content: String::new() }));
    let long = "x".repeat(BUFFER_SIZE - 3);
    assert_eq!(client.handle(BUFFER_SIZE, echo(&long)), Action::Reply(ServerReply::Echo { content: long }));
}

#[test]
fn close_ignores_decoded_value() {
    let client = Client::new(1);
    assert_eq!(client.handle(0, echo("late")), Action::Close);
}

#[test]
fn answers_do_not_depend_on_earlier_requests() {
    let client = Client::new(0);
    let first = client.handle(5, echo("a"));
    let _ = client.handle(4, None);
    let _ = client.handle(4, Some(ClientRequest::Add { a: 1, b: 2 }));
    let again = client.handle(5, echo("a"));
    assert_eq!(first, again);
}

#[test]
fn stop_twice_notifies_once() {
    let mut server = running_server();
    let id = server.accept().unwrap();
    let first = server.stop();
    assert_eq!(first.map(|(t, _)| t), Some(vec![id]));
    assert!(server.stop().is_none());
    assert_eq!(server.phase(), Phase::Stopped);
    assert_eq!(server.connections(), vec![id]);
}

#[test]
fn stop_before_run_does_nothing() {
    let mut server = Server::new();
    assert!(server.stop().is_none());
    assert_eq!(server.phase(), Phase::Created);
    assert!(!server.is_running());
}

#[test]
fn stopped_server_never_runs_again_nor_accepts() {
    let mut server = running_server();
    assert!(!server.run());
    assert!(server.stop().is_some());
    assert!(!server.run());
    assert!(!server.is_running());
    assert_eq!(server.accept(), None);
}

#[test]
fn created_server_accepts_nothing() {
    let mut server = Server::new();
    assert_eq!(server.accept(), None);
    assert!(!server.keep_serving(StepResult::Replied));
}

#[test]
fn worker_stops_on_close_or_failure() {
    let server = running_server();
    assert!(server.keep_serving(StepResult::Replied));
    assert!(!server.keep_serving(StepResult::Closed));
    assert!(!server.keep_serving(StepResult::Failed));
}

#[test]
fn registry_tracks_live_workers() {
    let mut server = running_server();
    let a = server.accept().unwrap();
    let b = server.accept().unwrap();
    let c = server.accept().unwrap();
    assert_eq!(server.connections(), vec![a, b, c]);
    server.finish(b);
    assert_eq!(server.connections(), vec![a, c]);
    server.finish(b);
    assert_eq!(server.connections(), vec![a, c]);
    let (targets, _) = server.notify_clients_of_shutdown();
    assert_eq!(targets, vec![a, c]);
    let d = server.accept().unwrap();
    assert_ne!(d, b);
    assert_eq!(server.connections(), vec![a, c, d]);
}

#[test]
fn registry_remove_keeps_order() {
    let mut r = Registry::new();
    r.insert(5);
    r.insert(7);
    r.insert(5);
    r.insert(9);
    assert!(r.contains(7));
    r.remove(5);
    assert_eq!(r.entries(), vec![7, 9]);
    assert!(!r.contains(5));
    r.remove(42);
    assert_eq!(r.entries(), vec![7, 9]);
}

#[test]
fn shutdown_notice_text() {
    let server = running_server();
    let (targets, notice) = server.notify_clients_of_shutdown();
    assert!(targets.is_empty());
    assert_eq!(notice, ServerReply::Error { content: SHUTTING_DOWN.to_string() });
}
