use havoc::branch::Branch;
use havoc::config::{
    branches_to_watch, default_max_connections, subscriptions_for, SqliteConfig, Subscription,
};

fn subscription(branches: &[Branch], url: &str) -> Subscription {
    Subscription { branches: branches.to_vec(), discord_webhook_url: url.to_owned() }
}

#[test]
fn ten_connections_by_default() {
    assert_eq!(default_max_connections(), 10);
    assert_eq!(SqliteConfig::new("db".to_owned(), None).max_connections, 10);
    assert_eq!(SqliteConfig::new("db".to_owned(), Some(3)).max_connections, 3);
    assert_eq!(SqliteConfig::new("db".to_owned(), Some(3)).url, "db");
}

#[test]
fn subscriptions_are_grouped_by_branch() {
    let subscriptions = vec![
        subscription(&[Branch::Canary, Branch::Stable], "one"),
        subscription(&[Branch::Canary], "two"),
        subscription(&[], "three"),
        subscription(&[Branch::Ptb, Branch::Canary, Branch::Ptb], "four"),
    ];
    assert_eq!(subscriptions_for(&subscriptions, Branch::Canary), vec![0, 1, 3]);
    assert_eq!(subscriptions_for(&subscriptions, Branch::Stable), vec![0]);
    assert_eq!(subscriptions_for(&subscriptions, Branch::Ptb), vec![3]);
    assert_eq!(subscriptions_for(&subscriptions, Branch::Development), vec![]);
    assert_eq!(
        branches_to_watch(&subscriptions),
        vec![Branch::Stable, Branch::Ptb, Branch::Canary]
    );
    assert!(subscriptions[0].is_subscribed_to(Branch::Stable));
    assert!(!subscriptions[1].is_subscribed_to(Branch::Stable));
}

#[test]
fn nothing_is_watched_without_subscriptions() {
    assert_eq!(branches_to_watch(&vec![]), vec![]);
    assert_eq!(branches_to_watch(&vec![subscription(&[], "x")]), vec![]);
    assert_eq!(
        branches_to_watch(&vec![subscription(&[Branch::Development], "x")]),
        vec![Branch::Development]
    );
}
