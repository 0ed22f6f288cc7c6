use redstone_computer_utilities::{url_encode_query, Script};

#[test]
fn defaults() {
    let s = Script::default();
    assert_eq!(s.name, "example");
    assert_eq!(s.description, "");
    assert_eq!(s.server, "ws://localhost:37265/");
    let s = Script::new("hello");
    assert_eq!(s.name, "hello");
    assert_eq!(s.server, "ws://localhost:37265/");
}

#[test]
fn builder_sets_fields() {
    let s = Script::new("a").name("b").description("d").server("wss://h:1/p");
    assert_eq!(s.name, "b");
    assert_eq!(s.description, "d");
    assert_eq!(s.server, "wss://h:1/p");
}

#[test]
fn query_encoding() {
    assert_eq!(url_encode_query("plain-text_1.~"), "plain-text_1.~");
    assert_eq!(url_encode_query("a b\"c#d<e>f"), "a%20b%22c%23d%3Ce%3Ef");
    assert_eq!(url_encode_query("\t\u{7f}"), "%09%7F");
    assert_eq!(url_encode_query("é"), "%C3%A9");
    assert_eq!(url_encode_query(""), "");
}

#[test]
fn connect_url() {
    let s = Script::new("hello world").description("say <hi>");
    assert_eq!(
        s.connect_url(),
        "ws://localhost:37265/?name=hello%20world&description=say%20%3Chi%3E"
    );
}
