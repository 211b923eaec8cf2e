use noise::discovery::decode_tunnel_server_id;

#[test]
fn tunnel_server() {
    assert_eq!("cable.ua5v.com", decode_tunnel_server_id(0).unwrap());
    assert_eq!("cable.auth.com", decode_tunnel_server_id(1).unwrap());
    assert_eq!(
        "cable.qz2ekwmnd332c.info",
        decode_tunnel_server_id(256).unwrap()
    );
    for s in 2..=255 {
        assert!(
            decode_tunnel_server_id(s).is_none(),
            "tunnel server {s} should be invalid"
        );
    }
}
