//! What is written to the terminal around the menu's table: the codes that
//! clear the screen, the title, and the line that says what may be typed.

use vstd::prelude::*;

use crate::text::decimal_text;

verus! {

/// `termion::cursor::Goto`, written out through its `Display`: the escape
/// character and `[`, the row, `;`, the column and `H`, both numbers in
/// decimal digits. `Goto` counts from one.
#[verifier::external_body]
fn goto_code(column: u16, row: u16) -> (code: String)
    requires
        column >= 1,
        row >= 1,
    ensures
        code@ == "\x1B["@ + decimal_text(row as int) + ";"@ + decimal_text(column as int) + "H"@,
{
    format!("{}", termion::cursor::Goto(column, row))
}

/// `termion::clear::All`, written out through its `Display`: the escape
/// character and `[2J`.
#[verifier::external_body]
fn clear_code() -> (code: String)
    ensures
        code@ == "\x1B[2J"@,
{
    format!("{}", termion::clear::All)
}

/// The codes that put the cursor in the upper left corner and then clear the
/// whole screen.
pub fn clear_screen() -> (codes: String)
    ensures
        codes@ == "\x1B[1;1H\x1B[2J"@,
{
    let mut codes = goto_code(1, 1);
    codes.append(clear_code().as_str());
    proof {
        reveal_strlit("\x1B[");
        reveal_strlit(";");
        reveal_strlit("H");
        reveal_strlit("\x1B[2J");
        reveal_strlit("\x1B[1;1H\x1B[2J");
        reveal_strlit("0123456789");
        assert(decimal_text(1) =~= seq!['1']);
        assert(codes@ =~= "\x1B[1;1H\x1B[2J"@);
    }
    codes
}

/// The title above the menu's table.
pub open spec fn title() -> Seq<char> {
    "                     欢迎使用SSHM管理工具                     "@
}

/// The line under the menu's table that says what may be typed.
pub open spec fn choices() -> Seq<char> {
    "请输入服务器编号连接到服务器\n或输入操作: c. 新增服务器 u. 更新服务器 d. 删除服务器  q. 退出"@
}

/// The whole menu around a table that was drawn: a cleared screen, the title,
/// the table and the choices, each on lines of its own.
pub open spec fn menu_screen_of(table: Seq<char>) -> Seq<char> {
    "\x1B[1;1H\x1B[2J"@ + title() + "\n"@ + table + "\n"@ + choices() + "\n"@
}

/// Puts the menu together around the table that `render` drew.
pub fn menu_screen(table: &str) -> (screen: String)
    ensures
        screen@ == menu_screen_of(table@),
{
    let mut screen = clear_screen();
    screen.append("                     欢迎使用SSHM管理工具                     ");
    screen.append("\n");
    screen.append(table);
    screen.append("\n");
    screen.append(
        "请输入服务器编号连接到服务器\n或输入操作: c. 新增服务器 u. 更新服务器 d. 删除服务器  q. 退出",
    );
    screen.append("\n");
    screen
}

} // verus!
