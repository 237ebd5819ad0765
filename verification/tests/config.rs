use streamcast::config::{
    Config, ConfigError, ConfigField, OutputCodec, Protocol, ServerConfig, StreamFormat,
};

fn server() -> ServerConfig {
    ServerConfig {
        host: String::from("radio.example.org"),
        port: 8000,
        user: String::from("source"),
        password: String::from("hackme"),
        mount: String::from("/test.ogg"),
        protocol: Protocol::Http,
        format: StreamFormat::Ogg,
    }
}

#[test]
fn the_default_configuration() {
    let c = Config::for_server(server());
    assert_eq!(c.output_container, "ogg");
    assert_eq!(c.output_codec, OutputCodec::Vorbis);
    assert_eq!(c.filter_expression, "anull");
    assert_eq!(c.chunk_size, 4096);
    assert_eq!(c.server.host, "radio.example.org");
    assert_eq!(c.server.port, 8000);
    assert_eq!(c.server.user, "source");
    assert_eq!(c.server.mount, "/test.ogg");
    assert_eq!(c.server.protocol, Protocol::Http);
    assert_eq!(c.server.format, StreamFormat::Ogg);
    assert_eq!(c.validate(), Ok(()));
}

#[test]
fn a_chunk_size_of_zero_is_a_fault() {
    let mut c = Config::for_server(server());
    c.chunk_size = 0;
    assert_eq!(c.validate(), Err(ConfigError::NoChunkSize));
    c.chunk_size = 1;
    assert_eq!(c.validate(), Ok(()));
}

#[test]
fn a_nul_in_any_text_is_a_fault() {
    let fields = [
        ConfigField::OutputContainer,
        ConfigField::FilterExpression,
        ConfigField::Host,
        ConfigField::User,
        ConfigField::Password,
        ConfigField::Mount,
    ];
    for field in fields.iter() {
        let mut c = Config::for_server(server());
        let text = match field {
            ConfigField::OutputContainer => &mut c.output_container,
            ConfigField::FilterExpression => &mut c.filter_expression,
            ConfigField::Host => &mut c.server.host,
            ConfigField::User => &mut c.server.user,
            ConfigField::Password => &mut c.server.password,
            ConfigField::Mount => &mut c.server.mount,
        };
        text.push('\0');
        assert_eq!(c.validate(), Err(ConfigError::NulIn(*field)));
    }
}

#[test]
fn of_several_faults_the_first_is_reported() {
    let mut c = Config::for_server(server());
    c.server.mount.push('\0');
    c.server.user.insert(0, '\0');
    assert_eq!(c.validate(), Err(ConfigError::NulIn(ConfigField::User)));
    c.filter_expression = String::from("a\0b");
    assert_eq!(c.validate(), Err(ConfigError::NulIn(ConfigField::FilterExpression)));
    c.chunk_size = 0;
    assert_eq!(c.validate(), Err(ConfigError::NoChunkSize));
}
