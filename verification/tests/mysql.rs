use query_macros::mysql::{ErrPacket, MySqlError};

#[test]
fn server_message() {
    let err = MySqlError(ErrPacket { error_message: "Table 'db.t' doesn't exist".to_string() });
    assert_eq!(err.message(), "Table 'db.t' doesn't exist");
    assert_eq!(MySqlError(ErrPacket { error_message: String::new() }).message(), "");
}
