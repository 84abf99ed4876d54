use sshm::menu::{address, menu_row, menu_rows, menu_headings, render, MenuRow};
use sshm::profile::Summary;
use sshm::store::ProfileStore;

fn summary(id: i32, name: &str, host: &str, port: i32, username: &str) -> Summary {
    Summary {
        id,
        name: name.to_string(),
        host: host.to_string(),
        port,
        username: username.to_string(),
    }
}

fn row(id: &str, name: &str, address: &str) -> MenuRow {
    MenuRow { id: id.to_string(), name: name.to_string(), address: address.to_string() }
}

#[test]
fn address_is_user_at_host_and_port() {
    assert_eq!(address("root", "10.0.0.1", 22), "root@10.0.0.1:22");
    assert_eq!(address("alice", "example.org", 2222), "alice@example.org:2222");
    assert_eq!(address("", "", 0), "@:0");
}

#[test]
fn menu_row_has_id_name_and_address() {
    assert_eq!(
        menu_row(&summary(1, "box", "10.0.0.1", 22, "root")),
        row("1", "box", "root@10.0.0.1:22")
    );
    assert_eq!(
        menu_row(&summary(120, "测试机", "example.org", 65535, "alice")),
        row("120", "测试机", "alice@example.org:65535")
    );
}

#[test]
fn menu_rows_of_no_profiles_are_none() {
    assert_eq!(menu_rows(&vec![]), vec![]);
}

#[test]
fn menu_rows_keep_the_order() {
    let profiles = vec![
        summary(2, "b", "h2", 23, "u2"),
        summary(1, "a", "h1", 22, "u1"),
        summary(3, "c", "h3", 24, "u3"),
    ];
    assert_eq!(
        menu_rows(&profiles),
        vec![row("2", "b", "u2@h2:23"), row("1", "a", "u1@h1:22"), row("3", "c", "u3@h3:24")]
    );
}

#[test]
fn menu_headings_name_the_three_columns() {
    assert_eq!(menu_headings(), row("服务器编号", "服务器别名", "服务器信息"));
}

#[test]
fn render_of_no_profiles_shows_the_headings_only() {
    let text = render(&vec![]);
    assert_eq!(
        text,
        "+------------+------------+------------+\n\
         | 服务器编号 | 服务器别名 | 服务器信息 |\n\
         +======================================+\n\
         +------------+------------+------------+"
    );
}

#[test]
fn render_shows_one_line_for_each_profile() {
    let text = render(&vec![summary(1, "box", "10.0.0.1", 22, "root"), summary(12, "b", "h", 8022, "u")]);
    assert_eq!(
        text,
        "+------------+------------+------------------+\n\
         | 服务器编号 | 服务器别名 |    服务器信息    |\n\
         +============================================+\n\
         |      1     |     box    | root@10.0.0.1:22 |\n\
         |------------+------------+------------------|\n\
         |     12     |      b     |     u@h:8022     |\n\
         +------------+------------+------------------+"
    );
}

#[test]
fn menu_follows_the_store_from_empty_to_one_profile_and_back() {
    let mut store = ProfileStore::new();
    let empty = render(&store.list());
    assert_eq!(menu_rows(&store.list()), vec![]);
    assert_eq!(empty.lines().count(), 4);
    assert!(empty.contains("服务器编号"));

    let id = store.create("box", "10.0.0.1", "", "root", "secret").unwrap();
    assert_eq!(id, 1);
    assert_eq!(menu_rows(&store.list()), vec![row("1", "box", "root@10.0.0.1:22")]);
    let one = render(&store.list());
    let line = one.lines().nth(3).unwrap();
    let cells: Vec<&str> = line.split('|').map(str::trim).collect();
    assert_eq!(cells, vec!["", "1", "box", "root@10.0.0.1:22", ""]);
    assert!(!one.contains("secret"));

    store.delete(1);
    assert_eq!(menu_rows(&store.list()), vec![]);
    assert_eq!(render(&store.list()), empty);
}

#[test]
fn render_writes_no_colour_codes() {
    let text = render(&vec![summary(1, "box", "10.0.0.1", 22, "root")]);
    assert!(!text.contains('\u{1b}'));
}

#[test]
fn render_of_the_same_profiles_is_the_same_text() {
    let profiles = vec![summary(1, "box", "10.0.0.1", 22, "root"), summary(2, "b", "h", 23, "u")];
    assert_eq!(render(&profiles), render(&profiles.clone()));
}
