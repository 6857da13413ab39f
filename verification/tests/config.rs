use wormhole_client::ClientConfig;
use wormhole_client::ReceiveResult;

#[test]
fn client_init_keeps_every_field_as_given() {
    let c = ClientConfig::client_init(
        "lothar.com/wormhole/text-or-file-xfer",
        "ws://localhost:4000/v1",
        "ws://localhost:4002",
        2,
    );
    assert_eq!(c.appid, "lothar.com/wormhole/text-or-file-xfer");
    assert_eq!(c.rendezvous_url, "ws://localhost:4000/v1");
    assert_eq!(c.transit_server_url, "ws://localhost:4002");
    assert_eq!(c.passphrase_component_len, 2);
}

#[test]
fn receive_result_holds_what_it_was_built_from() {
    let r = ReceiveResult::new(vec![1, 2, 3], String::from("notes.txt"), 3);
    assert_eq!(r.data, vec![1, 2, 3]);
    assert_eq!(r.filename, "notes.txt");
    assert_eq!(r.filesize, 3);
}
