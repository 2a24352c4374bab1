use watchvuln::config::{Config, Database, Environment, Format, LogLevel, Logger, Task, TgBot};
use watchvuln::markdown::escape_markdown;
use watchvuln::registry::{init, BotManager, Grab, GrabManager};
use watchvuln::scheduler::{Action, Scheduler, INIT_PAGE_LIMIT, PAGE_LIMIT};
use watchvuln::severity::Severity;
use watchvuln::notify::merge_poc_links;
use watchvuln::utils::{calc_hmac_sha256, check_over_two_week, is_over_two_weeks, timestamp_to_date};

#[test]
fn test_timestamp_to_date() {
    let res = timestamp_to_date(1715931545000).unwrap();
    assert_eq!(res, "2024-05-17");
}

#[test]
fn timestamp_epoch_and_out_of_range() {
    assert_eq!(timestamp_to_date(0).unwrap(), "1970-01-01");
    assert_eq!(timestamp_to_date(-1).unwrap(), "1969-12-31");
    assert_eq!(
        timestamp_to_date(i64::MAX).unwrap_err(),
        "convert timestamp to date error"
    );
}

#[test]
fn hmac_known_vector() {
    let tag = calc_hmac_sha256(b"Jefe", b"what do ya want for nothing?").unwrap();
    let hex: String = tag.iter().map(|b| format!("{:02x}", b)).collect();
    assert_eq!(
        hex,
        "5bdcc146bf60754e6a042426089575c75a003f089d2739839dec58b964ec3843"
    );
}

#[test]
fn escape_markdown_escapes_every_special() {
    assert_eq!(escape_markdown("".to_string()), "");
    assert_eq!(escape_markdown("plain text".to_string()), "plain text");
    assert_eq!(
        escape_markdown("CVE-2024_1.x [a](b) *!".to_string()),
        "CVE\\-2024\\_1\\.x \\[a\\]\\(b\\) \\*\\!"
    );
    assert_eq!(
        escape_markdown("~`>#+=|{}".to_string()),
        "\\~\\`\\>\\#\\+\\=\\|\\{\\}"
    );
    assert_eq!(escape_markdown("中危\\".to_string()), "中危\\");
}

#[test]
fn severity_labels_round_trip() {
    for s in [Severity::Low, Severity::Medium, Severity::High, Severity::Critical] {
        assert_eq!(Severity::from_label(s.label()), s);
    }
    assert_eq!(Severity::Critical.to_string(), "Critical");
    assert_eq!(Severity::from_label("bogus"), Severity::Low);
    assert!(Severity::Low.rank() < Severity::Critical.rank());
}

#[test]
fn environment_names() {
    assert!(matches!(Environment::from_name("production"), Environment::Production));
    assert!(matches!(Environment::from_name("development"), Environment::Development));
    assert!(matches!(Environment::from_name("test"), Environment::Test));
    match Environment::from_name("staging") {
        Environment::Any(s) => assert_eq!(s, "staging"),
        _ => panic!("expected a custom environment"),
    }
    assert_eq!(Environment::from_name("staging").name(), "staging");
    assert_eq!(Environment::Production.name(), "production");
}

#[test]
fn log_names_and_defaults() {
    assert_eq!(LogLevel::default(), LogLevel::Info);
    assert_eq!(Format::default(), Format::Compact);
    assert_eq!(LogLevel::Warn.name(), "warn");
    assert_eq!(Format::Json.name(), "json");
}

#[test]
fn scheduler_never_overlaps() {
    let (mut s, first) = Scheduler::start();
    assert_eq!(first, Action::StartPass(INIT_PAGE_LIMIT));
    assert_eq!(INIT_PAGE_LIMIT, 2);
    assert_eq!(s.on_trigger(), Action::Wait);
    assert_eq!(s.on_trigger(), Action::Wait);
    assert_eq!(s.on_pass_finished(), Action::StartPass(PAGE_LIMIT));
    assert!(s.is_running());
    assert_eq!(s.on_pass_finished(), Action::Wait);
    assert!(!s.is_running());
    assert_eq!(s.on_trigger(), Action::StartPass(1));
}

struct Named(&'static str, u32);

impl Grab for Named {
    fn get_name(&self) -> String {
        self.0.to_string()
    }
}

#[test]
fn grab_manager_replaces_same_name() {
    let mut m = GrabManager::new();
    m.register(Named("avd", 1));
    m.register(Named("oscs", 2));
    m.register(Named("avd", 3));
    assert_eq!(m.len(), 2);
    assert_eq!(m.get("avd").unwrap().1, 3);
    assert_eq!(m.get("oscs").unwrap().1, 2);
    assert!(m.get("kev").is_none());
    assert_eq!(m.names(), vec!["avd".to_string(), "oscs".to_string()]);
}

#[test]
fn bot_manager_keeps_order() {
    let mut b = BotManager::new();
    b.add_bot(1);
    b.add_bot(2);
    assert_eq!(b.bots, vec![1, 2]);
}

fn config(token: &str) -> Config {
    Config {
        database: Database {
            uri: "sqlite::memory:".to_string(),
            enable_logging: false,
            min_connections: 1,
            max_connections: 5,
            connect_timeout: 10,
            idle_timeout: 60,
        },
        task: Task { cron_config: "0 */5 * * * *".to_string() },
        logger: Logger {
            enable: true,
            pretty_backtrace: false,
            level: LogLevel::Info,
            format: Format::Compact,
            override_filter: None,
        },
        tg_bot: TgBot { chat_id: 42, token: token.to_string() },
    }
}

#[test]
fn channels_follow_tokens() {
    let on = init(config("123:abc"));
    assert_eq!(on.bots.len(), 1);
    assert_eq!(on.bots[0].chat_id, 42);
    assert!(init(config("")).bots.is_empty());
    assert!(init(config(" \t\n")).bots.is_empty());
}

#[test]
fn two_week_window_bounds() {
    assert!(!is_over_two_weeks(120, 120));
    assert!(!is_over_two_weeks(106, 120));
    assert!(is_over_two_weeks(105, 120));
    assert!(is_over_two_weeks(121, 120));
}

#[test]
fn check_over_two_week_on_real_dates() {
    let today = chrono::Utc::now().date_naive();
    let fmt = |d: chrono::NaiveDate| d.format("%Y-%m-%d").to_string();
    assert_eq!(check_over_two_week(&fmt(today)), Ok(false));
    assert_eq!(check_over_two_week("2001-01-01"), Ok(true));
    assert_eq!(
        check_over_two_week("yesterday"),
        Err("date is not in the form YYYY-MM-DD".to_string())
    );
}

#[test]
fn poc_links_skip_failed_lookup() {
    let a = vec!["https://github.com/p/1".to_string()];
    let b = vec!["https://github.com/r/2".to_string(), "https://github.com/r/3".to_string()];
    assert_eq!(
        merge_poc_links(Ok(a.clone()), Ok(b.clone())),
        vec![a[0].clone(), b[0].clone(), b[1].clone()]
    );
    assert_eq!(merge_poc_links(Err("rate limited".to_string()), Ok(b.clone())), b);
    assert_eq!(merge_poc_links(Ok(a.clone()), Err("down".to_string())), a);
    assert!(merge_poc_links(Err("x".to_string()), Err("y".to_string())).is_empty());
}
