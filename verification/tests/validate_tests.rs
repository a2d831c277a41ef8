use dawdle_ssh::config::Config;
use dawdle_ssh::config::FileSystemConfig;
use dawdle_ssh::config::MinecraftConfig;
use dawdle_ssh::config::SSHConfig;
use dawdle_ssh::config::WebConfig;
use dawdle_ssh::ringbuf::RingBuffer;
use dawdle_ssh::text::u64_to_dec_string;
use dawdle_ssh::validate::is_valid_project_path;
use dawdle_ssh::validate::is_valid_username;
use dawdle_ssh::web::WebdavAuth;

#[test]
fn usernames_accept_lowercase_digits_hyphen() {
    assert!(is_valid_username("alice"));
    assert!(is_valid_username("a"));
    assert!(is_valid_username("alice-2"));
    assert!(is_valid_username("0-0"));
}

#[test]
fn usernames_reject_bad_input() {
    assert!(!is_valid_username(""));
    assert!(!is_valid_username("Alice"));
    assert!(!is_valid_username("alice bob"));
    assert!(!is_valid_username("alice/../root"));
    assert!(!is_valid_username("a_b"));
    // 31 characters pass, 32 do not
    assert!(is_valid_username(&"a".repeat(31)));
    assert!(!is_valid_username(&"a".repeat(32)));
}

#[test]
fn project_paths_accept_relative_clean_paths() {
    assert!(is_valid_project_path("site/index.html"));
    assert!(is_valid_project_path("a"));
    assert!(is_valid_project_path("a/b/c-d_e.txt"));
}

#[test]
fn project_paths_reject_escapes() {
    assert!(!is_valid_project_path(""));
    assert!(!is_valid_project_path("/etc/passwd"));
    assert!(!is_valid_project_path("a//b"));
    assert!(!is_valid_project_path("a/../b"));
    assert!(!is_valid_project_path(".."));
    assert!(!is_valid_project_path("UPPER"));
    assert!(is_valid_project_path(&"a".repeat(63)));
    assert!(!is_valid_project_path(&"a".repeat(64)));
}

fn test_config() -> Config {
    Config {
        fs: FileSystemConfig {
            data_dir: String::from("/srv/data"),
            user_dir: String::from("/srv/users"),
        },
        ssh: SSHConfig { port: 2222, interface: String::from("0.0.0.0") },
        web: WebConfig { port: 8080, interface: String::from("0.0.0.0") },
        minecraft: MinecraftConfig {
            restadmin_url: String::from("http://localhost:8081"),
            restadmin_token: String::from("token"),
        },
        create_admin_user: None,
    }
}

#[test]
fn config_paths_join_as_documented() {
    let c = test_config();
    assert_eq!(c.user_bin_dir(), "/srv/users/bin");
    assert_eq!(c.default_user_home(), "/srv/users/default-home");
    assert_eq!(c.db_path(), "/srv/data/database/db.sqlite");
    assert_eq!(c.ssh_key_path(), "/srv/data/ssh/id_ed25519");
    assert_eq!(c.user_home("alice").unwrap(), "/srv/users/home/alice");
    assert_eq!(c.user_home("Alice"), None);
    assert_eq!(c.user_public_path("alice").unwrap(), "/srv/users/home/alice/public");
    assert_eq!(
        c.project_path("alice", "site/index.html").unwrap(),
        "/srv/users/home/alice/site/index.html"
    );
    assert_eq!(c.project_path("alice", "../escape"), None);
    assert_eq!(c.project_path("../alice", "site"), None);
}

#[test]
fn ring_buffer_keeps_newest() {
    let mut rb: RingBuffer<u32> = RingBuffer::new(3);
    assert_eq!(rb.to_vec(), Vec::<u32>::new());
    rb.push(1);
    rb.push(2);
    assert_eq!(rb.to_vec(), vec![1, 2]);
    rb.push(3);
    assert_eq!(rb.to_vec(), vec![1, 2, 3]);
    rb.push(4);
    assert_eq!(rb.to_vec(), vec![2, 3, 4]);
    rb.push(5);
    rb.push(6);
    assert_eq!(rb.to_vec(), vec![4, 5, 6]);
    rb.push(7);
    assert_eq!(rb.to_vec(), vec![5, 6, 7]);
}

#[test]
fn ring_buffer_capacity_one() {
    let mut rb: RingBuffer<String> = RingBuffer::new(1);
    rb.push(String::from("a"));
    rb.push(String::from("b"));
    assert_eq!(rb.to_vec(), vec![String::from("b")]);
}

#[test]
fn decimal_rendering() {
    assert_eq!(u64_to_dec_string(0), "0");
    assert_eq!(u64_to_dec_string(7), "7");
    assert_eq!(u64_to_dec_string(10), "10");
    assert_eq!(u64_to_dec_string(65535), "65535");
    assert_eq!(u64_to_dec_string(u64::MAX), "18446744073709551615");
}

#[test]
fn webdav_auth_username() {
    let auth = WebdavAuth(Some(String::from("alice")));
    assert_eq!(auth.username().map(|s| s.as_str()), Some("alice"));
    let none = WebdavAuth(None);
    assert!(none.username().is_none());
}
