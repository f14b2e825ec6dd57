use wallsplash::Args;
use wallsplash::CliArgs;
use wallsplash::ConfigError;
use wallsplash::ConfigTable;
use wallsplash::LocalTable;
use wallsplash::UnsplashTable;
use wallsplash::WallsplashError;

fn no_flags() -> CliArgs {
    CliArgs { dir: None, token: None, limit: None, refresh: None, timeout: None }
}

fn full_table() -> ConfigTable {
    ConfigTable {
        timeout: Some(60),
        local: Some(LocalTable { dir: Some("/from/file".to_string()) }),
        unsplash: Some(UnsplashTable {
            token: Some("file-token".to_string()),
            limit: Some(5),
            refresh: Some(3600),
        }),
    }
}

#[test]
fn tables_default_to_empty() {
    let t = ConfigTable::default();
    assert!(t.timeout.is_none());
    assert!(t.local.is_none());
    assert!(t.unsplash.is_none());
    let l = LocalTable::default();
    assert!(l.dir.is_none());
    let u = UnsplashTable::default();
    assert!(u.token.is_none());
    assert!(u.limit.is_none());
    assert!(u.refresh.is_none());
}

#[test]
fn flags_alone_fall_back_to_defaults() {
    let cli = CliArgs {
        dir: Some("/pics".to_string()),
        token: Some("tok".to_string()),
        ..no_flags()
    };
    let a = Args::parse(&cli, &ConfigTable::default()).unwrap();
    assert_eq!(a.local_dir, "/pics");
    assert_eq!(a.unsplash_token, "tok");
    assert_eq!(a.timeout, 1800);
    assert_eq!(a.unsplash_limit, 10);
    assert_eq!(a.unsplash_refresh, 86400);
}

#[test]
fn file_values_beat_defaults() {
    let a = Args::parse(&no_flags(), &full_table()).unwrap();
    assert_eq!(a.local_dir, "/from/file");
    assert_eq!(a.unsplash_token, "file-token");
    assert_eq!(a.timeout, 60);
    assert_eq!(a.unsplash_limit, 5);
    assert_eq!(a.unsplash_refresh, 3600);
}

#[test]
fn flags_beat_file_values() {
    let cli = CliArgs {
        dir: Some("/cli/pics".to_string()),
        token: Some("cli-token".to_string()),
        limit: Some("25".to_string()),
        refresh: Some("7200".to_string()),
        timeout: Some("90".to_string()),
    };
    let a = Args::parse(&cli, &full_table()).unwrap();
    assert_eq!(a.local_dir, "/cli/pics");
    assert_eq!(a.unsplash_token, "cli-token");
    assert_eq!(a.timeout, 90);
    assert_eq!(a.unsplash_limit, 25);
    assert_eq!(a.unsplash_refresh, 7200);
}

#[test]
fn numeric_flags_accept_a_plus_sign() {
    let cli = CliArgs {
        dir: Some("/pics".to_string()),
        token: Some("tok".to_string()),
        limit: Some("+30".to_string()),
        ..no_flags()
    };
    let a = Args::parse(&cli, &ConfigTable::default()).unwrap();
    assert_eq!(a.unsplash_limit, 30);
}

#[test]
fn a_bad_numeric_flag_is_an_error_despite_fallbacks() {
    let cli = CliArgs {
        dir: Some("/pics".to_string()),
        token: Some("tok".to_string()),
        timeout: Some("soon".to_string()),
        ..no_flags()
    };
    let r = Args::parse(&cli, &full_table());
    assert_eq!(r.unwrap_err(), ConfigError::InvalidNumber);
}

#[test]
fn an_overflowing_numeric_flag_is_an_error() {
    let cli = CliArgs {
        dir: Some("/pics".to_string()),
        token: Some("tok".to_string()),
        refresh: Some("4294967296".to_string()),
        ..no_flags()
    };
    let r = Args::parse(&cli, &ConfigTable::default());
    assert_eq!(r.unwrap_err(), ConfigError::InvalidNumber);
}

#[test]
fn into_context_carries_every_setting() {
    let a = Args {
        timeout: 90,
        local_dir: "/pics".to_string(),
        unsplash_token: "tok".to_string(),
        unsplash_limit: 25,
        unsplash_refresh: 7200,
    };
    let c = a.into_context();
    assert_eq!(c.dir, "/pics");
    assert_eq!(c.token, "tok");
    assert_eq!(c.limit, 25);
    assert_eq!(c.timeout_secs, 90);
    assert_eq!(c.refresh_secs, 7200);
}

#[test]
fn error_descriptions_match_their_variants() {
    assert_eq!(WallsplashError::LocalNoImage.description(), "No local images found");
    assert_eq!(
        WallsplashError::UnsplashAPIFail.description(),
        "Unsplash /photos api failed"
    );
    assert_eq!(
        WallsplashError::UnsplashNoImage.description(),
        "No images found from Unsplash"
    );
    assert_eq!(
        WallsplashError::Transport("connection reset".to_string()).description(),
        "connection reset"
    );
    assert_eq!(ConfigError::InvalidNumber.description(), "invalid number in arguments");
}
