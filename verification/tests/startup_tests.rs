use rendezvous_relay::startup::{plan_startup, ConfigError, ListenPlan};

#[test]
fn no_arguments_means_plaintext_on_port_80() {
    let args: Vec<String> = Vec::new();
    assert_eq!(plan_startup(&args), Ok(ListenPlan::Plain { port: 80 }));
}

#[test]
fn a_lone_certificate_path_is_a_fatal_configuration_error() {
    let args = vec![String::from("cert.pem")];
    assert_eq!(plan_startup(&args), Err(ConfigError::MissingKeyPath));
}

#[test]
fn certificate_and_key_mean_tls_on_port_443() {
    let args = vec![String::from("cert.pem"), String::from("key.pem")];
    assert_eq!(
        plan_startup(&args),
        Ok(ListenPlan::Tls {
            cert_path: String::from("cert.pem"),
            key_path: String::from("key.pem"),
            port: 443,
        })
    );
}

#[test]
fn arguments_past_the_second_are_ignored() {
    let args = vec![
        String::from("cert.pem"),
        String::from("key.pem"),
        String::from("extra"),
    ];
    assert_eq!(
        plan_startup(&args),
        Ok(ListenPlan::Tls {
            cert_path: String::from("cert.pem"),
            key_path: String::from("key.pem"),
            port: 443,
        })
    );
}
