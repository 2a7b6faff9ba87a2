use ntfy::{finish_dispatch, prepare, Client, DispatchError, Message};

#[test]
fn full_request_for_backup_notification() {
    let cli = Client::new("https://ntfy.sh", "backup", "xyz123");
    let msg = Message::builder("Backup finished")
        .title("Done")
        .tags("success,backup")
        .build();
    let r = prepare(&cli, msg);
    assert_eq!(r.url, "https://ntfy.sh/backup_xyz123");
    assert_eq!(r.title, "Done");
    assert_eq!(r.tags, "success,backup");
    assert_eq!(r.body, "Backup finished");
}

#[test]
fn absent_title_and_tags_are_sent_empty_not_omitted() {
    let cli = Client::new("https://ntfy.sh", "backup", "xyz123");
    let msg = Message::builder("Ping").build();
    let r = prepare(&cli, msg);
    assert_eq!(r.url, "https://ntfy.sh/backup_xyz123");
    assert_eq!(r.title, "");
    assert_eq!(r.tags, "");
    assert_eq!(r.body, "Ping");
}

#[test]
fn url_concatenates_without_any_encoding() {
    // No URL-encoding of any component: a slash or a space runs through
    // verbatim, even though the result looks malformed.
    let cli = Client::new("http://relay", "a/b", "x y");
    let r = prepare(&cli, Message::builder("m").build());
    assert_eq!(r.url, "http://relay/a/b_x y");
}

#[test]
fn empty_target_fields_still_form_a_url() {
    let cli = Client::new("", "", "");
    let r = prepare(&cli, Message::builder("m").build());
    assert_eq!(r.url, "/_");
}

#[test]
fn client_stores_fields_verbatim() {
    let cli = Client::new("  https://ntfy.sh ", "Topic", "UUID-1");
    assert_eq!(cli.server, "  https://ntfy.sh ");
    assert_eq!(cli.topic, "Topic");
    assert_eq!(cli.uuid, "UUID-1");
}

#[test]
fn title_last_write_wins() {
    let cli = Client::new("s", "t", "u");
    let msg = Message::builder("m").title("first").title("second").build();
    let r = prepare(&cli, msg);
    assert_eq!(r.title, "second");
    assert_eq!(r.tags, "");
    assert_eq!(r.body, "m");
}

#[test]
fn tags_last_write_wins() {
    let cli = Client::new("s", "t", "u");
    let msg = Message::builder("m").tags("a,b").tags("c").build();
    let r = prepare(&cli, msg);
    assert_eq!(r.tags, "c");
    assert_eq!(r.title, "");
    assert_eq!(r.body, "m");
}

#[test]
fn body_is_passed_through_byte_for_byte() {
    let cli = Client::new("s", "t", "u");

    let empty = prepare(&cli, Message::builder("").build());
    assert_eq!(empty.body, "");

    let unicode = prepare(&cli, Message::builder("héllo wörld ☂").build());
    assert_eq!(unicode.body.as_bytes(), "héllo wörld ☂".as_bytes());

    // Header-unsafe characters are not special-cased: what the transport
    // collaborator does with them is its own concern.
    let unsafe_chars = prepare(&cli, Message::builder("line1\r\nline2").build());
    assert_eq!(unsafe_chars.body, "line1\r\nline2");
}

#[test]
fn transport_failure_is_the_only_error_kind() {
    let outcome: Result<String, String> = Err(String::from("connection refused"));
    match finish_dispatch(outcome) {
        Err(DispatchError::Transport(e)) => assert_eq!(e, "connection refused"),
        Ok(_) => panic!("a transport failure must not become a success"),
    }
}

#[test]
fn non_2xx_response_is_a_normal_successful_result() {
    // A completed exchange with a server-side error status is handed back
    // untouched; the caller inspects the status, the library does not.
    let response = (503u16, String::from("service unavailable"));
    let outcome: Result<(u16, String), String> = Ok(response);
    match finish_dispatch(outcome) {
        Ok((status, body)) => {
            assert_eq!(status, 503);
            assert_eq!(body, "service unavailable");
        }
        Err(_) => panic!("a completed exchange must not be converted into an error"),
    }
}
