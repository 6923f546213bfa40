use workload_supervisor::env::{load_env, parse_decimal, Env, EnvError, EnvVars};

fn text(s: &str) -> Option<String> {
    Some(s.to_string())
}

fn complete() -> EnvVars {
    EnvVars {
        server_path: text("/srv/minecraft"),
        run_command: text("run.sh"),
        rcon_password: text("hunter2"),
        address_hint: text("play.example.org"),
        webserver_port: text("8000"),
        minecraft_port: text("25565"),
        rcon_port: text("25575"),
        minecraft_idle_timeout: text("600"),
    }
}

fn loaded(vars: EnvVars) -> Env {
    match load_env(vars) {
        Ok(env) => env,
        Err(error) => panic!("unexpected {error:?}"),
    }
}

fn refused(vars: EnvVars) -> EnvError {
    match load_env(vars) {
        Ok(env) => panic!("unexpected {env:?}"),
        Err(error) => error,
    }
}

#[test]
fn complete_variables_load() {
    let env = loaded(complete());
    assert_eq!(env.server_path, "/srv/minecraft");
    assert_eq!(env.run_command, "run.sh");
    assert_eq!(env.rcon_password, "hunter2");
    assert_eq!(env.address_hint, "play.example.org");
    assert_eq!(env.webserver_port, 8000);
    assert_eq!(env.minecraft_port, 25565);
    assert_eq!(env.rcon_port, 25575);
    assert_eq!(env.minecraft_idle_timeout, 600);
}

#[test]
fn empty_text_is_a_value_for_a_string() {
    let env = loaded(EnvVars { address_hint: text(""), rcon_password: text(""), ..complete() });
    assert_eq!(env.address_hint, "");
    assert_eq!(env.rcon_password, "");
}

#[test]
fn each_missing_variable_has_its_error() {
    assert_eq!(refused(EnvVars { server_path: None, ..complete() }), EnvError::ServerPath);
    assert_eq!(refused(EnvVars { run_command: None, ..complete() }), EnvError::RunCommand);
    assert_eq!(refused(EnvVars { rcon_password: None, ..complete() }), EnvError::RconPassword);
    assert_eq!(refused(EnvVars { address_hint: None, ..complete() }), EnvError::AddressHint);
    assert_eq!(refused(EnvVars { webserver_port: None, ..complete() }), EnvError::WebserverPort);
    assert_eq!(refused(EnvVars { minecraft_port: None, ..complete() }), EnvError::MinecraftPort);
    assert_eq!(refused(EnvVars { rcon_port: None, ..complete() }), EnvError::RconPort);
    assert_eq!(
        refused(EnvVars { minecraft_idle_timeout: None, ..complete() }),
        EnvError::MinecraftIdleTimeout
    );
}

#[test]
fn each_bad_number_has_its_error() {
    assert_eq!(
        refused(EnvVars { webserver_port: text("http"), ..complete() }),
        EnvError::WebserverPortValue
    );
    assert_eq!(
        refused(EnvVars { minecraft_port: text("65536"), ..complete() }),
        EnvError::MinecraftPortValue
    );
    assert_eq!(
        refused(EnvVars { rcon_port: text(""), ..complete() }),
        EnvError::RconPortValue
    );
    assert_eq!(
        refused(EnvVars { minecraft_idle_timeout: text("-1"), ..complete() }),
        EnvError::MinecraftIdleTimeoutValue
    );
    assert_eq!(
        refused(EnvVars { minecraft_idle_timeout: text("18446744073709551616"), ..complete() }),
        EnvError::MinecraftIdleTimeoutValue
    );
}

#[test]
fn the_first_defect_in_field_order_is_reported() {
    let nothing = EnvVars {
        server_path: None,
        run_command: None,
        rcon_password: None,
        address_hint: None,
        webserver_port: None,
        minecraft_port: None,
        rcon_port: None,
        minecraft_idle_timeout: None,
    };
    assert_eq!(refused(nothing.clone()), EnvError::ServerPath);
    assert_eq!(
        refused(EnvVars { server_path: text("a"), ..nothing.clone() }),
        EnvError::RunCommand
    );
    // A bad value comes before a later variable that is missing, and a
    // missing string before an earlier-declared number that is bad.
    assert_eq!(
        refused(EnvVars { webserver_port: text("x"), minecraft_port: None, ..complete() }),
        EnvError::WebserverPortValue
    );
    assert_eq!(
        refused(EnvVars { address_hint: None, webserver_port: text("x"), ..complete() }),
        EnvError::AddressHint
    );
    assert_eq!(
        refused(EnvVars { rcon_port: text("x"), minecraft_idle_timeout: text("y"), ..complete() }),
        EnvError::RconPortValue
    );
}

#[test]
fn limits_of_the_numbers_load() {
    let env = loaded(EnvVars {
        webserver_port: text("0"),
        minecraft_port: text("65535"),
        rcon_port: text("+1"),
        minecraft_idle_timeout: text("18446744073709551615"),
        ..complete()
    });
    assert_eq!(env.webserver_port, 0);
    assert_eq!(env.minecraft_port, 65535);
    assert_eq!(env.rcon_port, 1);
    assert_eq!(env.minecraft_idle_timeout, u64::MAX);
}

#[test]
fn decimal_text_is_read() {
    assert_eq!(parse_decimal("0", 10), Some(0));
    assert_eq!(parse_decimal("80", 65535), Some(80));
    assert_eq!(parse_decimal("+80", 65535), Some(80));
    assert_eq!(parse_decimal("00080", 65535), Some(80));
    assert_eq!(parse_decimal("65535", 65535), Some(65535));
    assert_eq!(parse_decimal("10", 10), Some(10));
    assert_eq!(parse_decimal("0000000000000000000000000000000000065535", 65535), Some(65535));
}

#[test]
fn text_that_is_no_number_in_range_is_refused() {
    for bad in [
        "", "+", "-", "-0", "-1", "++1", "+-1", " 1", "1 ", "1_000", "0x10", "1e3", "1.0", "٣",
        "１", "12a", "a12", "65536", "99999999999999999999999999",
    ] {
        assert_eq!(parse_decimal(bad, 65535), None, "{bad:?}");
    }
    assert_eq!(parse_decimal("11", 10), None);
    assert_eq!(parse_decimal("1", 0), None);
    assert_eq!(parse_decimal("0", 0), Some(0));
    assert_eq!(parse_decimal("18446744073709551616", u64::MAX), None);
    assert_eq!(parse_decimal("18446744073709551620", u64::MAX), None);
    assert_eq!(parse_decimal("28446744073709551615", u64::MAX), None);
}

#[test]
fn decimal_text_is_read_as_the_standard_library_reads_it() {
    let samples = [
        "", "+", "-", "0", "+0", "-0", "7", "+7", "007", "+007", "65535", "65536", "+65535",
        "065535", "70000", " 7", "7 ", "７", "7a", "a7", "4294967295", "4294967296",
        "18446744073709551615", "18446744073709551616", "+18446744073709551615",
        "000018446744073709551615", "184467440737095516150", "1\n", "\t1", "1,0", "--1", "+ 1",
    ];
    for sample in samples {
        assert_eq!(
            parse_decimal(sample, 0xffff),
            sample.parse::<u16>().ok().map(u64::from),
            "{sample:?} as u16"
        );
        assert_eq!(
            parse_decimal(sample, u64::MAX),
            sample.parse::<u64>().ok(),
            "{sample:?} as u64"
        );
    }
}
