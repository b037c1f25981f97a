use sharder::config::{config_from_settings, parse_public_key, ConfigError};
use sharder::interaction::{
    DecodeError, InteractionApplicationCommandCallbackData, InteractionResponse, InteractionResponseType,
};

const BASE_POINT: &str = "5866666666666666666666666666666666666666666666666666666666666666";
const NOT_A_POINT: &str = "0200000000000000000000000000000000000000000000000000000000000000";

fn message() -> InteractionApplicationCommandCallbackData {
    InteractionApplicationCommandCallbackData { tts: Some(false), content: Some("hi".to_string()), flags: None }
}

#[test]
fn constructors_carry_their_type() {
    assert_eq!(InteractionResponse::new_pong().type_code(), 1);
    assert_eq!(InteractionResponse::new_channel_message_with_source(message()).type_code(), 4);
    assert_eq!(InteractionResponse::new_deferred_message_with_source().type_code(), 5);
    assert_eq!(InteractionResponse::new_deferred_message_update().type_code(), 6);
    match InteractionResponse::new_deferred_message_with_source() {
        InteractionResponse::DeferredChannelMessageWithSource(r) => assert_eq!(r.data().flags, 64),
        other => panic!("unexpected {:?}", other),
    }
    match InteractionResponse::new_channel_message_with_source(message()) {
        InteractionResponse::ChannelMessageWithSource(r) => assert_eq!(r.data(), &message()),
        other => panic!("unexpected {:?}", other),
    }
}

#[test]
fn response_type_codes() {
    assert_eq!(InteractionResponseType::try_from(1), Ok(InteractionResponseType::Pong));
    assert_eq!(InteractionResponseType::try_from(7), Ok(InteractionResponseType::UpdateMessage));
    assert_eq!(InteractionResponseType::try_from(2), Err(DecodeError::UnknownType(2)));
    assert_eq!(InteractionResponseType::DeferredMessageUpdate.code(), 6);
}

#[test]
fn decode_selects_variant_by_type() {
    assert!(matches!(InteractionResponse::from_parts(Some(1), None, None), Ok(InteractionResponse::PongResponse(_))));
    assert!(matches!(
        InteractionResponse::from_parts(Some(6), None, None),
        Ok(InteractionResponse::DeferredMessageUpdate(_))
    ));
    match InteractionResponse::from_parts(Some(5), None, Some(64)) {
        Ok(InteractionResponse::DeferredChannelMessageWithSource(r)) => assert_eq!(r.data().flags, 64),
        other => panic!("unexpected {:?}", other),
    }
    match InteractionResponse::from_parts(Some(4), Some(message()), None) {
        Ok(InteractionResponse::ChannelMessageWithSource(r)) => assert_eq!(r.data().content.as_deref(), Some("hi")),
        other => panic!("unexpected {:?}", other),
    }
}

#[test]
fn decode_errors() {
    assert_eq!(InteractionResponse::from_parts(None, None, None).unwrap_err(), DecodeError::TypeNotInteger);
    assert_eq!(InteractionResponse::from_parts(Some(3), None, None).unwrap_err(), DecodeError::UnknownType(3));
    assert_eq!(
        InteractionResponse::from_parts(Some(7), None, None).unwrap_err(),
        DecodeError::UpdateMessageUnsupported
    );
    assert_eq!(InteractionResponse::from_parts(Some(4), None, None).unwrap_err(), DecodeError::MissingData);
    assert_eq!(InteractionResponse::from_parts(Some(5), None, None).unwrap_err(), DecodeError::MissingData);
}

#[test]
fn public_key_parsing() {
    assert!(parse_public_key(BASE_POINT).is_ok());
    assert!(parse_public_key(&BASE_POINT.to_uppercase()).is_ok());
    assert_eq!(parse_public_key(NOT_A_POINT).unwrap_err(), ConfigError::InvalidKeyPoint);
    assert_eq!(parse_public_key("58").unwrap_err(), ConfigError::InvalidKeyHex);
    assert_eq!(parse_public_key(&BASE_POINT.replace('5', "g")).unwrap_err(), ConfigError::InvalidKeyHex);
    let key = parse_public_key(BASE_POINT).unwrap();
    assert_eq!(hex::encode(key.as_bytes()), BASE_POINT);
}

#[test]
fn settings_are_read() {
    let c = config_from_settings(
        "0.0.0.0:3000".to_string(), "+508391840525975553", "tok".to_string(), BASE_POINT,
        "redis:6379".to_string(), "4", "postgres://db".to_string(), "2",
    )
    .unwrap();
    assert_eq!(c.main_bot_id.0, 508391840525975553);
    assert_eq!(c.redis.threads, 4);
    assert_eq!(c.database.threads, 2);
    assert_eq!(&*c.server_addr, "0.0.0.0:3000");
    assert_eq!(&*c.redis.address, "redis:6379");
    assert_eq!(&*c.database.uri, "postgres://db");
    assert_eq!(&*c.main_bot_token, "tok");
    let err = |id: &str, key: &str, rt: &str, dt: &str| {
        config_from_settings(String::new(), id, String::new(), key, String::new(), rt, String::new(), dt).err()
    };
    assert_eq!(err("x1", BASE_POINT, "1", "1"), Some(ConfigError::InvalidBotId));
    assert_eq!(err("18446744073709551616", BASE_POINT, "1", "1"), Some(ConfigError::InvalidBotId));
    assert_eq!(err("1", "zz", "1", "1"), Some(ConfigError::InvalidKeyHex));
    assert_eq!(err("1", NOT_A_POINT, "1", "1"), Some(ConfigError::InvalidKeyPoint));
    assert_eq!(err("1", BASE_POINT, "-1", "1"), Some(ConfigError::InvalidRedisThreads));
    assert_eq!(err("1", BASE_POINT, "1", "4294967296"), Some(ConfigError::InvalidDatabaseThreads));
}

#[test]
fn consecutive_decodes_are_independent() {
    assert!(matches!(InteractionResponse::from_parts(Some(1), None, None), Ok(InteractionResponse::PongResponse(_))));
    match InteractionResponse::from_parts(Some(5), None, Some(64)) {
        Ok(InteractionResponse::DeferredChannelMessageWithSource(r)) => {
            assert_eq!(r.response_type(), InteractionResponseType::DeferredChannelMessageWithSource);
            assert_eq!(r.data().flags, 64);
        }
        other => panic!("unexpected {:?}", other),
    }
}

#[test]
fn built_responses_decode_back_from_their_parts() {
    let built = vec![
        InteractionResponse::new_pong(),
        InteractionResponse::new_channel_message_with_source(message()),
        InteractionResponse::new_deferred_message_with_source(),
        InteractionResponse::new_deferred_message_update(),
    ];
    for r in built {
        let (msg, flags) = match &r {
            InteractionResponse::ChannelMessageWithSource(m) => (Some(m.data().clone()), None),
            InteractionResponse::DeferredChannelMessageWithSource(d) => (None, Some(d.data().flags)),
            _ => (None, None),
        };
        let back = InteractionResponse::from_parts(Some(r.type_code()), msg, flags).unwrap();
        assert_eq!(format!("{:?}", back), format!("{:?}", r));
    }
}

#[test]
fn decimal_settings_edge_cases() {
    let id = |text: &str| {
        config_from_settings(String::new(), text, String::new(), BASE_POINT, String::new(), "1", String::new(), "1")
            .map(|c| c.main_bot_id.0)
    };
    assert_eq!(id("007").ok(), Some(7));
    assert_eq!(id("+0").ok(), Some(0));
    assert_eq!(id("18446744073709551615").ok(), Some(u64::MAX));
    assert_eq!(id("").err(), Some(ConfigError::InvalidBotId));
    assert_eq!(id("+").err(), Some(ConfigError::InvalidBotId));
    assert_eq!(id("-0").err(), Some(ConfigError::InvalidBotId));
    assert_eq!(id("99999999999999999999x").err(), Some(ConfigError::InvalidBotId));
    assert_eq!(id("1 ").err(), Some(ConfigError::InvalidBotId));
}
