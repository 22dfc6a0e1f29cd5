use background_tasks::config::append_decimal;
use background_tasks::config::Environment;
use background_tasks::config::MeiliConfig;
use background_tasks::config::RedisSettings;
use background_tasks::search::IndexerSchedule;
use background_tasks::search::IndexerStep;

fn redis(host: &str, port: u16) -> RedisSettings {
    RedisSettings { host: String::from(host), port, secret_key: String::from("secret") }
}

fn meili(retry: Option<u64>, retries: Option<u64>, interval: Option<u64>) -> MeiliConfig {
    MeiliConfig {
        url: String::from("http://localhost:7700"),
        master_key: String::from("key"),
        retry_seconds: retry,
        max_retries: retries,
        indexing_interval_seconds: interval,
    }
}

#[test]
fn redis_connection_string_names_host_and_port() {
    assert_eq!(redis("localhost", 6379).connection_string(), "redis://localhost:6379");
    assert_eq!(redis("10.0.0.7", 0).connection_string(), "redis://10.0.0.7:0");
    assert_eq!(redis("cache", 65535).connection_string(), "redis://cache:65535");
    assert_eq!(redis("", 7).connection_string(), "redis://:7");
}

#[test]
fn numbers_are_written_in_decimal() {
    for n in [0u16, 9, 10, 99, 100, 1024, 9999, 10000, 65535] {
        let mut text = String::from("#");
        append_decimal(&mut text, n);
        assert_eq!(text, format!("#{}", n));
    }
}

#[test]
fn environments_have_lowercase_names() {
    assert_eq!(Environment::Local.as_str(), "local");
    assert_eq!(Environment::Production.as_str(), "production");
    assert_eq!(Environment::CI.as_str(), "ci");
}

#[test]
fn environment_is_parsed_in_any_case() {
    assert_eq!(Environment::parse("local"), Ok(Environment::Local));
    assert_eq!(Environment::parse("LOCAL"), Ok(Environment::Local));
    assert_eq!(Environment::parse("Production"), Ok(Environment::Production));
    assert_eq!(Environment::parse("Ci"), Ok(Environment::CI));
}

#[test]
fn unknown_environment_is_refused_with_its_lowercase_name() {
    assert_eq!(
        Environment::parse("Staging"),
        Err(String::from(
            "staging is not a supported environment. Use either `local` or `production`."
        ))
    );
    assert!(Environment::from_lowercase(String::from("LOCAL")).is_err());
    assert!(Environment::parse("").is_err());
}

#[test]
fn indexer_schedule_has_defaults() {
    let schedule = IndexerSchedule::from_config(&meili(None, None, None));
    assert_eq!(schedule.retry_seconds, 60);
    assert_eq!(schedule.max_retries, 5);
    assert_eq!(schedule.indexing_interval_seconds, 3600);
    assert_eq!(schedule.current_retries, 0);
    let schedule = IndexerSchedule::from_config(&meili(Some(5), Some(2), Some(30)));
    assert_eq!(schedule.retry_seconds, 5);
    assert_eq!(schedule.max_retries, 2);
    assert_eq!(schedule.indexing_interval_seconds, 30);
}

#[test]
fn indexer_runs_again_after_the_interval() {
    let mut schedule = IndexerSchedule::from_config(&meili(None, None, None));
    assert_eq!(schedule.after_run(true), IndexerStep::RunAfter { seconds: 3600 });
    assert_eq!(schedule.current_retries, 0);
}

#[test]
fn indexer_gives_up_on_the_sixth_failure() {
    let mut schedule = IndexerSchedule::from_config(&meili(None, None, None));
    for left in [4u64, 3, 2, 1, 0] {
        assert_eq!(
            schedule.after_run(false),
            IndexerStep::RetryAfter { seconds: 60, retries_left: left }
        );
    }
    assert_eq!(schedule.current_retries, 5);
    assert_eq!(schedule.after_run(false), IndexerStep::GiveUp);
    assert_eq!(schedule.current_retries, 5);
}

#[test]
fn successes_do_not_reset_the_failure_count() {
    let mut schedule = IndexerSchedule::from_config(&meili(Some(1), Some(2), Some(10)));
    assert_eq!(schedule.after_run(false), IndexerStep::RetryAfter { seconds: 1, retries_left: 1 });
    assert_eq!(schedule.after_run(true), IndexerStep::RunAfter { seconds: 10 });
    assert_eq!(schedule.after_run(false), IndexerStep::RetryAfter { seconds: 1, retries_left: 0 });
    assert_eq!(schedule.after_run(true), IndexerStep::RunAfter { seconds: 10 });
    assert_eq!(schedule.after_run(false), IndexerStep::GiveUp);
}

#[test]
fn indexer_without_retries_gives_up_at_once() {
    let mut schedule = IndexerSchedule::from_config(&meili(None, Some(0), None));
    assert_eq!(schedule.after_run(false), IndexerStep::GiveUp);
}
