use sshm::screen::{clear_screen, menu_screen};

#[test]
fn clear_screen_homes_the_cursor_and_clears() {
    assert_eq!(clear_screen(), "\u{1b}[1;1H\u{1b}[2J");
}

#[test]
fn menu_screen_puts_title_table_and_choices_on_lines() {
    assert_eq!(
        menu_screen("+--+\n|ab|\n+--+"),
        "\u{1b}[1;1H\u{1b}[2J                     欢迎使用SSHM管理工具                     \n\
         +--+\n|ab|\n+--+\n\
         请输入服务器编号连接到服务器\n\
         或输入操作: c. 新增服务器 u. 更新服务器 d. 删除服务器  q. 退出\n"
    );
}

#[test]
fn menu_screen_of_no_table_keeps_its_line() {
    let screen = menu_screen("");
    assert!(screen.starts_with("\u{1b}[1;1H\u{1b}[2J"));
    assert_eq!(screen.lines().count(), 4);
    assert_eq!(screen.lines().nth(1), Some(""));
    assert!(screen.ends_with("q. 退出\n"));
}
