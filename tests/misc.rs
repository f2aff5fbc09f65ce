use beavercds::artifacts::{asset_container_name, random_discriminator};
use beavercds::init::{blank_init, example_init, Points};
use beavercds::text::{file_name, join_path, same_text};

#[test]
fn blank_values() {
    let v = blank_init();
    assert!(v.flag_regex.is_empty());
    assert_eq!(v.points.len(), 1);
    assert_eq!(v.profiles.len(), 1);
    assert_eq!(v.profiles[0].profile_name, "default");
    assert!(v.profiles[0].s3_region.is_empty());
}

#[test]
fn example_values() {
    let v = example_init();
    assert_eq!(v.flag_regex, "ctf{.*}");
    assert_eq!(v.registry_domain, "ghcr.io/youraccount");
    assert_eq!(v.registry_cluster_pass, "cluster_user");
    assert_eq!(v.points[1].max, "1337");
    assert_eq!(v.profiles[0].s3_region, "us-west-2");
}

#[test]
fn points_display() {
    let p = Points { difficulty: "1".into(), min: "200".into(), max: "500".into() };
    assert_eq!(p.to_display_string(), "(1  Points: 200-500)");
}

#[test]
fn discriminators() {
    let d = random_discriminator();
    assert_eq!(d.chars().count(), 6);
    assert!(d.chars().all(|c| c.is_ascii_alphanumeric()));
    assert_eq!(asset_container_name("pwn-notsh", "main", "aB3dE9"), "asset-container-pwn-notsh-main-aB3dE9");
}

#[test]
fn paths() {
    assert_eq!(file_name("/usr/lib/libc.so.6"), Some("libc.so.6".to_string()));
    assert_eq!(file_name("notsh"), Some("notsh".to_string()));
    assert_eq!(file_name("a/"), None);
    assert_eq!(file_name("a/.."), None);
    assert_eq!(file_name(""), None);
    assert_eq!(join_path("pwn/notsh", "x"), "pwn/notsh/x");
    assert_eq!(join_path("pwn/notsh/", "x"), "pwn/notsh/x");
    assert_eq!(join_path("", "x"), "x");
    assert_eq!(join_path("d", "/abs"), "/abs");
    assert!(same_text("é", "é"));
    assert!(!same_text("a", "ab"));
}
