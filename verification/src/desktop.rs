//! Installing into the application menu and autostart: where the files go
//! (from the environment values the app reads), what they hold, and what
//! keeping autostart in step takes. Writing the files is the app's part.

use vstd::prelude::*;
use vstd::string::{StrSliceExecFns, StringExecFns};

use crate::text::{chars_of, decimal_text, is_space, is_space_char, push_char, push_decimal};

verus! {

/// Program and entry name.
pub const APP_ID: &'static str = "hi-my-light";

/// Name shown in menus.
pub const APP_NAME: &'static str = "HML";

/// Operating systems the installer knows.
#[derive(Clone, Copy, Debug, PartialEq, Eq, Structural)]
pub enum Platform {
    Linux,
    Windows,
    Other,
}

/// Label of the install button.
pub fn install_title(installed: bool) -> (s: &'static str)
    ensures
        s@ == (if installed {
            "重新安装到开始菜单"@
        } else {
            "安装到开始菜单"@
        }),
{
    if installed {
        "重新安装到开始菜单"
    } else {
        "安装到开始菜单"
    }
}

/// Hint under the install button on the given platform.
pub fn install_hint(installed: bool, platform: Platform) -> (s: &'static str)
    ensures
        s@ == (if installed {
            "已加入本机开始菜单，点这里可覆盖更新"@
        } else {
            match platform {
                Platform::Windows => "复制到用户目录，并加入开始菜单"@,
                Platform::Linux => "复制到 ~/.local/bin，并加入应用菜单"@,
                Platform::Other => "仅支持 Linux 和 Windows"@,
            }
        }),
{
    if installed {
        "已加入本机开始菜单，点这里可覆盖更新"
    } else {
        match platform {
            Platform::Windows => "复制到用户目录，并加入开始菜单",
            Platform::Linux => "复制到 ~/.local/bin，并加入应用菜单",
            Platform::Other => "仅支持 Linux 和 Windows",
        }
    }
}

/// The path contains white space or a quote and must be quoted on an `Exec=` line.
pub open spec fn needs_quotes(s: Seq<char>) -> bool {
    exists|i: int| 0 <= i < s.len() && (is_space(#[trigger] s[i]) || s[i] == '"' || s[i] == '\'')
}

/// Each double quote preceded by a backslash.
pub open spec fn escape_double_quotes(s: Seq<char>) -> Seq<char>
    decreases s.len(),
{
    if s.len() == 0 {
        Seq::empty()
    } else {
        escape_double_quotes(s.drop_last()) + if s.last() == '"' {
            seq!['\\', '"']
        } else {
            seq![s.last()]
        }
    }
}

/// Each single quote doubled (PowerShell single-quoted string).
pub open spec fn double_single_quotes(s: Seq<char>) -> Seq<char>
    decreases s.len(),
{
    if s.len() == 0 {
        Seq::empty()
    } else {
        double_single_quotes(s.drop_last()) + if s.last() == '\'' {
            seq!['\'', '\'']
        } else {
            seq![s.last()]
        }
    }
}

/// The path as written on an `Exec=` line.
pub open spec fn shell_escaped(s: Seq<char>) -> Seq<char> {
    if needs_quotes(s) {
        seq!['"'] + escape_double_quotes(s) + seq!['"']
    } else {
        s
    }
}

/// Quotes a path for an `Exec=` line when it holds white space or quotes;
/// double quotes inside are escaped with a backslash.
pub fn shell_escape(path: &str) -> (s: String)
    ensures
        s@ == shell_escaped(path@),
{
    let chars = chars_of(path);
    let mut quote = false;
    let mut i: usize = 0;
    while i < chars.len()
        invariant
            chars@ == path@,
            i <= chars@.len(),
            quote == exists|k: int|
                0 <= k < i && (is_space(#[trigger] chars@[k]) || chars@[k] == '"' || chars@[k]
                    == '\''),
        decreases chars@.len() - i,
    {
        let c = chars[i];
        if is_space_char(c) || c == '"' || c == '\'' {
            quote = true;
        }
        i = i + 1;
    }
    if !quote {
        return String::from_str(path);
    }
    let mut s = String::new();
    push_char(&mut s, '"');
    let mut j: usize = 0;
    while j < chars.len()
        invariant
            chars@ == path@,
            j <= chars@.len(),
            s@ == seq!['"'] + escape_double_quotes(chars@.take(j as int)),
        decreases chars@.len() - j,
    {
        let c = chars[j];
        proof {
            assert(chars@.take(j + 1).drop_last() =~= chars@.take(j as int));
        }
        if c == '"' {
            push_char(&mut s, '\\');
            push_char(&mut s, '"');
        } else {
            push_char(&mut s, c);
        }
        assert(s@ =~= seq!['"'] + escape_double_quotes(chars@.take(j + 1)));
        j = j + 1;
    }
    assert(chars@.take(chars@.len() as int) =~= chars@);
    push_char(&mut s, '"');
    s
}

/// Quotes a path for a PowerShell single-quoted string: single quotes are doubled.
pub fn ps_single_quote(path: &str) -> (s: String)
    ensures
        s@ == double_single_quotes(path@),
{
    let chars = chars_of(path);
    let mut s = String::new();
    let mut j: usize = 0;
    while j < chars.len()
        invariant
            chars@ == path@,
            j <= chars@.len(),
            s@ == double_single_quotes(chars@.take(j as int)),
        decreases chars@.len() - j,
    {
        let c = chars[j];
        proof {
            assert(chars@.take(j + 1).drop_last() =~= chars@.take(j as int));
        }
        if c == '\'' {
            push_char(&mut s, '\'');
            push_char(&mut s, '\'');
        } else {
            push_char(&mut s, c);
        }
        assert(s@ =~= double_single_quotes(chars@.take(j + 1)));
        j = j + 1;
    }
    assert(chars@.take(chars@.len() as int) =~= chars@);
    s
}

pub open spec fn desktop_head() -> Seq<char> {
    "[Desktop Entry]\nType=Application\nVersion=1.0\nName=HML\nGenericName=吊灯控制\nComment=控制 THUNDEROBOT 吊灯\nExec="@
}

pub open spec fn desktop_tail() -> Seq<char> {
    "\nIcon=hi-my-light\nTerminal=false\nCategories=Utility;\nStartupNotify=false\nStartupWMClass=hi-my-light\nX-KDE-StartupNotify=false\n"@
}

pub open spec fn autostart_head() -> Seq<char> {
    "[Desktop Entry]\nType=Application\nVersion=1.0\nName=HML\nComment=托盘驻留\nExec="@
}

pub open spec fn autostart_tail() -> Seq<char> {
    " --background\nIcon=hi-my-light\nTerminal=false\nCategories=Utility;\nStartupNotify=false\nX-GNOME-Autostart-enabled=true\nX-KDE-autostart-after=panel\nX-KDE-StartupNotify=false\n"@
}

/// The application-menu entry starting `exec`.
pub fn desktop_body(exec: &str) -> (s: String)
    ensures
        s@ == desktop_head() + shell_escaped(exec@) + desktop_tail(),
{
    let mut s = String::from_str(
        "[Desktop Entry]\nType=Application\nVersion=1.0\nName=HML\nGenericName=吊灯控制\nComment=控制 THUNDEROBOT 吊灯\nExec=",
    );
    let e = shell_escape(exec);
    s.append(e.as_str());
    s.append(
        "\nIcon=hi-my-light\nTerminal=false\nCategories=Utility;\nStartupNotify=false\nStartupWMClass=hi-my-light\nX-KDE-StartupNotify=false\n",
    );
    s
}

/// The autostart entry starting `exec` in the background (tray only).
pub fn autostart_body(exec: &str) -> (s: String)
    ensures
        s@ == autostart_head() + shell_escaped(exec@) + autostart_tail(),
{
    let mut s = String::from_str(
        "[Desktop Entry]\nType=Application\nVersion=1.0\nName=HML\nComment=托盘驻留\nExec=",
    );
    let e = shell_escape(exec);
    s.append(e.as_str());
    s.append(
        " --background\nIcon=hi-my-light\nTerminal=false\nCategories=Utility;\nStartupNotify=false\nX-GNOME-Autostart-enabled=true\nX-KDE-autostart-after=panel\nX-KDE-StartupNotify=false\n",
    );
    s
}

/// `base` with `rel` appended as a path: an absolute `rel` replaces `base`,
/// otherwise a `/` separates them unless `base` is empty or already ends in one.
pub open spec fn joined(base: Seq<char>, rel: Seq<char>) -> Seq<char> {
    if rel.len() > 0 && rel[0] == '/' {
        rel
    } else if base.len() == 0 || base.last() == '/' {
        base + rel
    } else {
        base + seq!['/'] + rel
    }
}

/// Joins two paths as `joined` says.
pub fn join_path(base: &str, rel: &str) -> (p: String)
    ensures
        p@ == joined(base@, rel@),
{
    let rel_len = rel.unicode_len();
    if rel_len > 0 && rel.get_char(0) == '/' {
        return String::from_str(rel);
    }
    let mut p = String::from_str(base);
    let n = base.unicode_len();
    if n > 0 && base.get_char(n - 1) != '/' {
        p.append("/");
        proof {
            reveal_strlit("/");
        }
    }
    p.append(rel);
    assert(n > 0 ==> base@.last() == base@[n - 1]);
    p
}

/// The home directory: `$HOME`, or `.` without one.
pub open spec fn spec_home_dir(home: Option<Seq<char>>) -> Seq<char> {
    match home {
        Some(h) => h,
        None => "."@,
    }
}

/// `$XDG_DATA_HOME`, or `~/.local/share`.
pub open spec fn spec_data_home(xdg_data_home: Option<Seq<char>>, home: Option<Seq<char>>) -> Seq<char> {
    match xdg_data_home {
        Some(d) => d,
        None => joined(spec_home_dir(home), ".local/share"@),
    }
}

/// `$XDG_CONFIG_HOME`, or `~/.config`.
pub open spec fn spec_config_home(xdg_config_home: Option<Seq<char>>, home: Option<Seq<char>>) -> Seq<char> {
    match xdg_config_home {
        Some(d) => d,
        None => joined(spec_home_dir(home), ".config"@),
    }
}

/// The characters of an optional text.
pub open spec fn opt_view(o: Option<&str>) -> Option<Seq<char>> {
    match o {
        Some(s) => Some(s@),
        None => None,
    }
}

fn home_dir(home: Option<&str>) -> (p: String)
    ensures
        p@ == spec_home_dir(opt_view(home)),
{
    match home {
        Some(h) => String::from_str(h),
        None => String::from_str("."),
    }
}

/// The data directory from `$XDG_DATA_HOME` and `$HOME`.
pub fn data_home(xdg_data_home: Option<&str>, home: Option<&str>) -> (p: String)
    ensures
        p@ == spec_data_home(opt_view(xdg_data_home), opt_view(home)),
{
    match xdg_data_home {
        Some(d) => String::from_str(d),
        None => {
            let h = home_dir(home);
            join_path(h.as_str(), ".local/share")
        },
    }
}

/// The configuration directory from `$XDG_CONFIG_HOME` and `$HOME`.
pub fn config_home(xdg_config_home: Option<&str>, home: Option<&str>) -> (p: String)
    ensures
        p@ == spec_config_home(opt_view(xdg_config_home), opt_view(home)),
{
    match xdg_config_home {
        Some(d) => String::from_str(d),
        None => {
            let h = home_dir(home);
            join_path(h.as_str(), ".config")
        },
    }
}

/// Where the installed program goes: `~/.local/bin/hi-my-light`.
pub fn bin_path(home: Option<&str>) -> (p: String)
    ensures
        p@ == joined(joined(spec_home_dir(opt_view(home)), ".local/bin"@), APP_ID@),
{
    let h = home_dir(home);
    let dir = join_path(h.as_str(), ".local/bin");
    join_path(dir.as_str(), APP_ID)
}

/// The application-menu entry under the data directory.
pub fn menu_entry_path(data_home: &str) -> (p: String)
    ensures
        p@ == joined(joined(data_home@, "applications"@), "hi-my-light.desktop"@),
{
    let dir = join_path(data_home, "applications");
    join_path(dir.as_str(), "hi-my-light.desktop")
}

/// The autostart entry under the configuration directory.
pub fn autostart_path(config_home: &str) -> (p: String)
    ensures
        p@ == joined(joined(config_home@, "autostart"@), "hi-my-light.desktop"@),
{
    let dir = join_path(config_home, "autostart");
    join_path(dir.as_str(), "hi-my-light.desktop")
}

/// The scalable icon under the data directory.
pub fn icon_svg_path(data_home: &str) -> (p: String)
    ensures
        p@ == joined(joined(data_home@, "icons/hicolor/scalable/apps"@), "hi-my-light.svg"@),
{
    let dir = join_path(data_home, "icons/hicolor/scalable/apps");
    join_path(dir.as_str(), "hi-my-light.svg")
}

/// The bitmap icon of `size` pixels under the data directory.
pub fn icon_png_path(data_home: &str, size: u32) -> (p: String)
    ensures
        p@ == joined(
            joined(
                data_home@,
                "icons/hicolor/"@ + decimal_text(size as nat) + "x"@ + decimal_text(size as nat)
                    + "/apps"@,
            ),
            "hi-my-light.png"@,
        ),
{
    let mut rel = String::from_str("icons/hicolor/");
    push_decimal(&mut rel, size as usize);
    rel.append("x");
    push_decimal(&mut rel, size as usize);
    rel.append("/apps");
    let dir = join_path(data_home, rel.as_str());
    join_path(dir.as_str(), "hi-my-light.png")
}

/// Icon sizes written as bitmaps.
pub fn icon_png_sizes() -> (sizes: [u32; 4])
    ensures
        sizes@ == seq![32u32, 64, 128, 256],
{
    let sizes = [32u32, 64, 128, 256];
    assert(sizes@ =~= seq![32u32, 64, 128, 256]);
    sizes
}

/// The menu entry counts as installed when both it and the program are files.
pub fn is_menu_installed(menu_entry_is_file: bool, bin_is_file: bool) -> (b: bool)
    ensures
        b == (menu_entry_is_file && bin_is_file),
{
    menu_entry_is_file && bin_is_file
}

/// What keeping autostart in step with the setting takes.
#[derive(Clone, Copy, Debug, PartialEq, Eq, Structural)]
pub enum AutostartStep {
    /// Write the autostart entry for the installed program.
    Write,
    /// Install the program first, then write the entry for it.
    InstallThenWrite,
    /// Remove the autostart entry.
    Remove,
    /// Nothing to do.
    Nothing,
}

/// The step `sync_autostart` takes for the setting, given whether the
/// program is installed and whether an autostart entry exists.
pub fn sync_autostart(enabled: bool, bin_is_file: bool, entry_exists: bool) -> (step: AutostartStep)
    ensures
        step == (if enabled {
            if bin_is_file {
                AutostartStep::Write
            } else {
                AutostartStep::InstallThenWrite
            }
        } else if entry_exists {
            AutostartStep::Remove
        } else {
            AutostartStep::Nothing
        }),
{
    if enabled {
        if bin_is_file {
            AutostartStep::Write
        } else {
            AutostartStep::InstallThenWrite
        }
    } else if entry_exists {
        AutostartStep::Remove
    } else {
        AutostartStep::Nothing
    }
}

/// Whether the program was started to stay in the tray: one of its
/// arguments is `--background`, `--tray` or `--hidden`.
pub fn start_hidden(args: &Vec<String>) -> (b: bool)
    ensures
        b == exists|i: int|
            0 <= i < args@.len() && (#[trigger] args@[i]@ == "--background"@ || args@[i]@
                == "--tray"@ || args@[i]@ == "--hidden"@),
{
    let background = String::from_str("--background");
    let tray = String::from_str("--tray");
    let hidden = String::from_str("--hidden");
    let mut i: usize = 0;
    while i < args.len()
        invariant
            i <= args@.len(),
            background@ == "--background"@,
            tray@ == "--tray"@,
            hidden@ == "--hidden"@,
            forall|k: int|
                0 <= k < i ==> !(#[trigger] args@[k]@ == "--background"@ || args@[k]@
                    == "--tray"@ || args@[k]@ == "--hidden"@),
        decreases args@.len() - i,
    {
        if args[i] == background || args[i] == tray || args[i] == hidden {
            return true;
        }
        i = i + 1;
    }
    false
}

/// A drive name on its own, such as `C:`.
pub open spec fn bare_drive(base: Seq<char>) -> bool {
    base.len() == 2 && base[1] == ':' && (('a' <= base[0] <= 'z') || ('A' <= base[0] <= 'Z'))
}

/// `base` with the relative path `rel` appended the Windows way: a `\`
/// separates them unless `base` is empty, a bare drive, or already ends in
/// a separator (`\` or `/`).
pub open spec fn win_joined(base: Seq<char>, rel: Seq<char>) -> Seq<char> {
    if base.len() == 0 || bare_drive(base) || base.last() == '\\' || base.last() == '/' {
        base + rel
    } else {
        base + seq!['\\'] + rel
    }
}

/// Joins a relative path onto `base` as `win_joined` says.
pub fn win_join_path(base: &str, rel: &str) -> (p: String)
    ensures
        p@ == win_joined(base@, rel@),
{
    let mut p = String::from_str(base);
    let n = base.unicode_len();
    let no_sep = n == 0 || {
        let last = base.get_char(n - 1);
        last == '\\' || last == '/'
    } || (n == 2 && base.get_char(1) == ':' && {
        let d = base.get_char(0);
        ('a' <= d && d <= 'z') || ('A' <= d && d <= 'Z')
    });
    if !no_sep {
        push_char(&mut p, '\\');
    }
    p.append(rel);
    assert(n > 0 ==> base@.last() == base@[n - 1]);
    p
}

/// A user folder from its own variable, else under `%USERPROFILE%\AppData`,
/// else `.`.
pub open spec fn spec_app_data(own: Option<Seq<char>>, userprofile: Option<Seq<char>>, leaf: Seq<char>) -> Seq<char> {
    match own {
        Some(d) => d,
        None => match userprofile {
            Some(h) => win_joined(win_joined(h, "AppData"@), leaf),
            None => "."@,
        },
    }
}

fn app_data(own: Option<&str>, userprofile: Option<&str>, leaf: &str) -> (p: String)
    ensures
        p@ == spec_app_data(opt_view(own), opt_view(userprofile), leaf@),
{
    match own {
        Some(d) => String::from_str(d),
        None => match userprofile {
            Some(h) => {
                let a = win_join_path(h, "AppData");
                win_join_path(a.as_str(), leaf)
            },
            None => String::from_str("."),
        },
    }
}

/// `%LOCALAPPDATA%`, else `%USERPROFILE%\AppData\Local`, else `.`.
pub fn win_local_app_data(local_app_data: Option<&str>, userprofile: Option<&str>) -> (p: String)
    ensures
        p@ == spec_app_data(opt_view(local_app_data), opt_view(userprofile), "Local"@),
{
    app_data(local_app_data, userprofile, "Local")
}

/// `%APPDATA%`, else `%USERPROFILE%\AppData\Roaming`, else `.`.
pub fn win_roaming_app_data(app_data_dir: Option<&str>, userprofile: Option<&str>) -> (p: String)
    ensures
        p@ == spec_app_data(opt_view(app_data_dir), opt_view(userprofile), "Roaming"@),
{
    app_data(app_data_dir, userprofile, "Roaming")
}

/// Where the installed program goes on Windows: `hi-my-light\hi-my-light.exe`
/// under the local application data.
pub fn win_bin_path(local_app_data: &str) -> (p: String)
    ensures
        p@ == win_joined(win_joined(local_app_data@, "hi-my-light"@), "hi-my-light.exe"@),
{
    let dir = win_join_path(local_app_data, APP_ID);
    win_join_path(dir.as_str(), "hi-my-light.exe")
}

/// The program's icon on Windows, beside the program.
pub fn win_icon_ico_path(local_app_data: &str) -> (p: String)
    ensures
        p@ == win_joined(win_joined(local_app_data@, "hi-my-light"@), "hi-my-light.ico"@),
{
    let dir = win_join_path(local_app_data, APP_ID);
    win_join_path(dir.as_str(), "hi-my-light.ico")
}

/// The Start-menu folder under the roaming application data.
pub open spec fn start_menu(roaming: Seq<char>) -> Seq<char> {
    win_joined(roaming, "Microsoft/Windows/Start Menu/Programs"@)
}

/// The Start-menu shortcut.
pub fn win_menu_entry_path(roaming_app_data: &str) -> (p: String)
    ensures
        p@ == win_joined(start_menu(roaming_app_data@), "HML.lnk"@),
{
    let dir = win_join_path(roaming_app_data, "Microsoft/Windows/Start Menu/Programs");
    win_join_path(dir.as_str(), "HML.lnk")
}

/// The batch file used in the Start menu when no shortcut could be made.
pub fn win_menu_bat_path(roaming_app_data: &str) -> (p: String)
    ensures
        p@ == win_joined(start_menu(roaming_app_data@), "HML.bat"@),
{
    let dir = win_join_path(roaming_app_data, "Microsoft/Windows/Start Menu/Programs");
    win_join_path(dir.as_str(), "HML.bat")
}

/// On Windows the menu entry counts as installed when the program is a file
/// and either the shortcut or the batch file is.
pub fn win_is_menu_installed(bin_is_file: bool, lnk_is_file: bool, bat_is_file: bool) -> (b: bool)
    ensures
        b == (bin_is_file && (lnk_is_file || bat_is_file)),
{
    bin_is_file && (lnk_is_file || bat_is_file)
}

/// The batch file that starts `exec`.
pub fn win_menu_bat_body(exec: &str) -> (s: String)
    ensures
        s@ == "@echo off\r\nstart \"\" \""@ + exec@ + "\"\r\n"@,
{
    let mut s = String::from_str("@echo off\r\nstart \"\" \"");
    s.append(exec);
    s.append("\"\r\n");
    s
}

/// What is done with the batch file once the shortcut was tried: written
/// when no shortcut could be made, removed when one was and a batch file is
/// left from before.
#[derive(Clone, Copy, Debug, PartialEq, Eq, Structural)]
pub enum BatStep {
    Write,
    Remove,
    Keep,
}

/// The batch-file step after trying to make the shortcut.
pub fn win_bat_step(shortcut_made: bool, bat_exists: bool) -> (step: BatStep)
    ensures
        step == (if !shortcut_made {
            BatStep::Write
        } else if bat_exists {
            BatStep::Remove
        } else {
            BatStep::Keep
        }),
{
    if !shortcut_made {
        BatStep::Write
    } else if bat_exists {
        BatStep::Remove
    } else {
        BatStep::Keep
    }
}

/// The value of the autostart entry in the registry's Run key: the quoted
/// program, started in the background.
pub fn win_run_value(exec: &str) -> (s: String)
    ensures
        s@ == "\""@ + exec@ + "\" --background"@,
{
    let mut s = String::from_str("\"");
    s.append(exec);
    s.append("\" --background");
    s
}

/// Removing the autostart value succeeded, or there was none
/// (status 2, file not found).
pub fn win_run_value_removed(status: u32) -> (ok: bool)
    ensures
        ok == (status == 0 || status == 2),
{
    status == 0 || status == 2
}

/// The PowerShell script that makes the Start-menu shortcut `lnk` to
/// `target`, working in `work`, with the icon `icon`.
pub fn win_shortcut_script(lnk: &str, target: &str, work: &str, icon: &str) -> (s: String)
    ensures
        s@ == "$s = (New-Object -ComObject WScript.Shell).CreateShortcut('"@ + double_single_quotes(
            lnk@,
        ) + "'); $s.TargetPath = '"@ + double_single_quotes(target@)
            + "'; $s.WorkingDirectory = '"@ + double_single_quotes(work@)
            + "'; $s.IconLocation = '"@ + double_single_quotes(icon@) + "'; $s.Save()"@,
{
    let mut s = String::from_str("$s = (New-Object -ComObject WScript.Shell).CreateShortcut('");
    s.append(ps_single_quote(lnk).as_str());
    s.append("'); $s.TargetPath = '");
    s.append(ps_single_quote(target).as_str());
    s.append("'; $s.WorkingDirectory = '");
    s.append(ps_single_quote(work).as_str());
    s.append("'; $s.IconLocation = '");
    s.append(ps_single_quote(icon).as_str());
    s.append("'; $s.Save()");
    s
}

} // verus!
