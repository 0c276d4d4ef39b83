//! The user's Lua rules: loading `config.lua`, the list of sort rules, the
//! wallpaper for the time of day, the folder that a rule picks for a file, and
//! the theme stored in `Config.theme`.
//!
//! The scripts run in an embedded Lua 5.4 state of the `mlua` crate. What a
//! script answers may depend on anything the script reads (the clock among
//! them), so the functions that run one state what holds of every answer, and
//! the decisions taken on an answer stand in functions of their own with exact
//! contracts.

use vstd::prelude::*;
use vstd::string::*;

verus! {

// The Lua state, tables, functions, values and errors of `mlua`, carried
// through the library without being looked into.
#[verifier::external_type_specification]
#[verifier::external_body]
pub struct ExLuaState(mlua::Lua);

#[verifier::external_type_specification]
#[verifier::external_body]
pub struct ExLuaTable(mlua::Table);

#[verifier::external_type_specification]
#[verifier::external_body]
pub struct ExLuaFunction(mlua::Function);

#[verifier::external_type_specification]
#[verifier::external_body]
pub struct ExLuaValue(mlua::Value);

#[verifier::external_type_specification]
#[verifier::external_body]
pub struct ExLuaError(mlua::Error);

/// A Lua state in which the user's rules run.
pub struct RulesState {
    lua: mlua::Lua,
}

/// Calls `mlua::Lua::new`: a fresh Lua state with the safe standard
/// libraries. It panics only when no state can be allocated. The state is
/// opaque here; nothing is claimed of it.
#[verifier::external_body]
fn lua_new() -> (lua: mlua::Lua) {
    mlua::Lua::new()
}

/// Calls `mlua::Lua::load` and `mlua::Chunk::exec`: runs `code` in the
/// state. Whether it succeeds depends on the script, so nothing is claimed
/// of it.
#[verifier::external_body]
fn lua_exec(state: &RulesState, code: &str) -> (r: Result<(), mlua::Error>) {
    state.lua.load(code).exec()
}

/// Calls `mlua::Lua::globals`: the table of global variables. Nothing is
/// claimed of its contents.
#[verifier::external_body]
fn lua_globals(state: &RulesState) -> (t: mlua::Table) {
    state.lua.globals()
}

/// A value stored in a Lua table, as far as the library writes one: a
/// string, an integer, or a number that is no integer.
#[derive(Debug)]
pub enum LuaScalar {
    Text(String),
    Integer(i64),
    Number,
}

/// The string-keyed fields of the table that the handle `t` refers to, while
/// the library holds that handle alone (a handle's table is shared with its
/// copies).
pub uninterp spec fn lua_table_fields(t: mlua::Table) -> Map<Seq<char>, LuaScalar>;

/// A table without fields.
pub open spec fn no_fields() -> Map<Seq<char>, LuaScalar> {
    Map::empty()
}

/// Calls `mlua::Lua::create_table`: a new table, which has no fields.
#[verifier::external_body]
fn lua_create_table(state: &RulesState) -> (r: Result<mlua::Table, mlua::Error>)
    ensures
        r is Ok ==> lua_table_fields(r->Ok_0) == no_fields(),
{
    state.lua.create_table()
}

/// Calls `mlua::Table::raw_set` with a string value: the field `key` then
/// holds `value` (no metamethod runs).
#[verifier::external_body]
fn table_raw_set_text(t: &mut mlua::Table, key: &str, value: String) -> (r: Result<(), mlua::Error>)
    ensures
        r is Ok ==> lua_table_fields(*final(t)) == lua_table_fields(*old(t)).insert(
            key@,
            LuaScalar::Text(value),
        ),
        r is Err ==> lua_table_fields(*final(t)) == lua_table_fields(*old(t)),
{
    t.raw_set(key, value)
}

/// Calls `mlua::Table::raw_set` with an unsigned value: the field `key` then
/// holds it as an integer when it fits a Lua integer, as a float otherwise
/// (no metamethod runs).
#[verifier::external_body]
fn table_raw_set_unsigned(t: &mut mlua::Table, key: &str, value: u64) -> (r: Result<(), mlua::Error>)
    ensures
        r is Ok ==> lua_table_fields(*final(t)) == lua_table_fields(*old(t)).insert(
            key@,
            if value <= i64::MAX {
                LuaScalar::Integer(value as i64)
            } else {
                LuaScalar::Number
            },
        ),
        r is Err ==> lua_table_fields(*final(t)) == lua_table_fields(*old(t)),
{
    t.raw_set(key, value)
}

/// Calls `mlua::Table::get` with a table result: the field `key`, or the
/// error when it is no table. Lua tables change under the scripts, so
/// nothing is claimed of the outcome.
#[verifier::external_body]
fn table_get_table(t: &mlua::Table, key: &str) -> (r: Result<mlua::Table, mlua::Error>) {
    t.get::<mlua::Table>(key)
}

/// Calls `mlua::Table::get` with a function result: the field `key`, or the
/// error when it is no function. Nothing is claimed of the outcome.
#[verifier::external_body]
fn table_get_function(t: &mlua::Table, key: &str) -> (r: Result<mlua::Function, mlua::Error>) {
    t.get::<mlua::Function>(key)
}

/// Calls `mlua::Table::get` with a string result: the field `key` (Lua
/// strings and numbers convert), or the error. Nothing is claimed of the
/// outcome.
#[verifier::external_body]
fn table_get_string(t: &mlua::Table, key: &str) -> (r: Result<String, mlua::Error>) {
    t.get::<String>(key)
}

/// Calls `mlua::Table::pairs` with integer keys and table values and
/// collects the values in the order Lua walks them; the first entry that does
/// not convert ends the walk with its error. The order and the contents come
/// from the script, so nothing is claimed of them.
#[verifier::external_body]
fn table_pair_tables(t: &mlua::Table) -> (r: Result<Vec<mlua::Table>, mlua::Error>) {
    t.pairs::<u32, mlua::Table>().map(|p| p.map(|kv| kv.1)).collect()
}

/// Calls `mlua::Function::call` with no arguments and a table result. The
/// function is the script's, so nothing is claimed of the outcome.
#[verifier::external_body]
fn function_call_for_table(f: &mlua::Function) -> (r: Result<mlua::Table, mlua::Error>) {
    f.call::<mlua::Table>(())
}

/// Calls `mlua::Function::call` with one table argument and any result. The
/// function is the script's, so nothing is claimed of the outcome.
#[verifier::external_body]
fn function_call_with_table(f: &mlua::Function, arg: mlua::Table) -> (r: Result<mlua::Value, mlua::Error>) {
    f.call::<mlua::Value>(arg)
}

/// Calls `mlua::Value::as_table`: the table when the value is one. The value
/// is opaque here, so nothing is claimed of the answer.
#[verifier::external_body]
fn value_as_table(v: &mlua::Value) -> (r: Option<mlua::Table>) {
    v.as_table().cloned()
}

/// The `Display` text of an `mlua::Error` (its `fmt` through `format!`).
/// Nothing is claimed of the text.
#[verifier::external_body]
fn lua_error_text(e: &mlua::Error) -> (r: String) {
    format!("{}", e)
}

/// A message made of `prefix` and the text of a Lua error.
fn error_message(prefix: &str, e: &mlua::Error) -> (r: String)
    ensures
        message_with_prefix(r@, prefix@),
{
    let detail = lua_error_text(e);
    let mut r = String::from_str(prefix);
    r.append(detail.as_str());
    r
}

/// `text` is `prefix` followed by some detail.
pub open spec fn message_with_prefix(text: Seq<char>, prefix: Seq<char>) -> bool {
    exists|detail: Seq<char>| text == prefix + detail
}

/// Description of a file handed to the sort rules.
#[derive(Debug)]
pub struct LuaFileInfo {
    pub name: String,
    pub extension: String,
    pub size_bytes: u64,
}

/// Wallpaper settings chosen by the Lua rules.
#[derive(Debug)]
pub struct WallpaperSettings {
    pub wallpaper_type: String,
    pub color_start: Option<Vec<u8>>,
    pub color_end: Option<Vec<u8>>,
}

/// What `ApplySortRules` answered: a table, with the text of its `folder`
/// field when that field reads as a string, or something that is no table.
#[derive(Debug)]
pub enum SortReply {
    Table { folder: Option<String> },
    NotTable,
}

/// The folder that a rule answer selects.
pub open spec fn sort_reply_folder(reply: SortReply) -> Option<Seq<char>> {
    match reply {
        SortReply::Table { folder } => match folder {
            Some(f) => Some(f@),
            None => Some("Other"@),
        },
        SortReply::NotTable => None,
    }
}

/// The folder selected by a rule answer: the table's `folder`, `"Other"` for
/// a table without one, and none when the rule answered no table.
pub fn sort_rule_folder(reply: SortReply) -> (r: Option<String>)
    ensures
        r matches Some(f) ==> sort_reply_folder(reply) == Some(f@),
        r is None <==> sort_reply_folder(reply) is None,
{
    match reply {
        SortReply::Table { folder } => match folder {
            Some(f) => Some(f),
            None => Some(String::from_str("Other")),
        },
        SortReply::NotTable => None,
    }
}

/// The wallpaper type chosen by `GetWallpaperForNow`: its `type` field, or
/// `"dark"` when that field does not read as a string.
pub open spec fn wallpaper_type_of(field: Option<Seq<char>>) -> Seq<char> {
    match field {
        Some(t) => t,
        None => "dark"@,
    }
}

/// Settings for a `type` field that read as `field`; no colours are chosen.
pub fn wallpaper_settings_from(field: Option<String>) -> (r: WallpaperSettings)
    ensures
        r.wallpaper_type@ == wallpaper_type_of(
            match field {
                Some(t) => Some(t@),
                None => None,
            },
        ),
        r.color_start is None,
        r.color_end is None,
{
    let wallpaper_type = match field {
        Some(t) => t,
        None => String::from_str("dark"),
    };
    WallpaperSettings { wallpaper_type, color_start: None, color_end: None }
}

/// The rule names that were read, in order, skipping the rules without one.
pub open spec fn present_names(names: Seq<Option<String>>) -> Seq<Seq<char>>
    decreases names.len(),
{
    if names.len() == 0 {
        Seq::empty()
    } else {
        let rest = present_names(names.drop_last());
        match names.last() {
            Some(n) => rest.push(n@),
            None => rest,
        }
    }
}

/// Collects the names of the sort rules (see [`present_names`]).
pub fn collect_rule_names(names: Vec<Option<String>>) -> (r: Vec<String>)
    ensures
        r@.map_values(|s: String| s@) == present_names(names@),
{
    let mut r: Vec<String> = Vec::new();
    let mut i: usize = 0;
    let n = names.len();
    let ghost given = names@;
    let mut names = names;
    while i < n
        invariant
            n == given.len(),
            i <= n,
            names@.len() + i == n,
            forall|j: int| 0 <= j < names@.len() ==> names@[j] == given[i + j],
            r@.map_values(|s: String| s@) == present_names(given.take(i as int)),
        decreases n - i,
    {
        let first = names.remove(0);
        assert(given.take(i + 1).drop_last() =~= given.take(i as int));
        assert(given.take(i + 1).last() == given[i as int]);
        match first {
            Some(name) => {
                r.push(name);
            },
            None => {},
        }
        assert(r@.map_values(|s: String| s@) =~= present_names(given.take(i + 1)));
        i = i + 1;
    }
    assert(given.take(n as int) =~= given);
    r
}

/// Reading the field `key` of the table `t` as a string gave `field`: the
/// text read, or none when the field did not read as a string.
pub closed spec fn string_field_read(t: mlua::Table, key: Seq<char>, field: Option<String>) -> bool {
    exists|k: &str, res: Result<String, mlua::Error>|
        k@ == key && #[trigger] call_ensures(table_get_string, (&t, k), res) && match res {
            Ok(s) => field == Some(s),
            Err(_) => field is None,
        }
}

/// The global `name` read as a function gave `f`.
pub closed spec fn global_function_read(name: Seq<char>, f: mlua::Function) -> bool {
    exists|g: mlua::Table, k: &str|
        k@ == name && #[trigger] call_ensures(table_get_function, (&g, k), Ok::<mlua::Function, mlua::Error>(f))
}

/// The walk of the global table `SortRules` gave the rule tables `tables`,
/// in the order Lua walked them.
pub closed spec fn sort_rules_walked(tables: Vec<mlua::Table>) -> bool {
    exists|g: mlua::Table, k: &str, rules: mlua::Table|
        #![trigger call_ensures(table_get_table, (&g, k), Ok::<mlua::Table, mlua::Error>(rules)), call_ensures(table_pair_tables, (&rules,), Ok::<Vec<mlua::Table>, mlua::Error>(tables))]
        k@ == "SortRules"@
        && call_ensures(table_get_table, (&g, k), Ok::<mlua::Table, mlua::Error>(rules))
        && call_ensures(table_pair_tables, (&rules,), Ok::<Vec<mlua::Table>, mlua::Error>(tables))
}

/// `GetWallpaperForNow()` answered the table `t`.
pub closed spec fn wallpaper_rule_answered(t: mlua::Table) -> bool {
    exists|f: mlua::Function|
        global_function_read("GetWallpaperForNow"@, f)
        && #[trigger] call_ensures(function_call_for_table, (&f,), Ok::<mlua::Table, mlua::Error>(t))
}

/// `ApplySortRules(file)` answered `v`, where `file` is a table whose fields
/// describe `info` (see [`file_fields`]).
pub closed spec fn sort_rule_answered(info: LuaFileInfo, v: mlua::Value) -> bool {
    exists|f: mlua::Function, arg: mlua::Table|
        global_function_read("ApplySortRules"@, f) && lua_table_fields(arg) == file_fields(info)
        && #[trigger] call_ensures(function_call_with_table, (&f, arg), Ok::<mlua::Value, mlua::Error>(v))
}

/// Reading the rule's answer `v` gave the folder `answer`: none when `v` is
/// no table; otherwise its `folder` field when that reads as a string, and
/// `"Other"` when it does not.
pub closed spec fn rule_folder_read(v: mlua::Value, answer: Option<String>) -> bool {
    ||| answer is None && call_ensures(value_as_table, (&v,), None::<mlua::Table>)
    ||| exists|t: mlua::Table, folder: Option<String>|
        #[trigger] call_ensures(value_as_table, (&v,), Some(t)) && #[trigger] string_field_read(t, "folder"@, folder)
            && match folder {
                Some(f) => answer matches Some(a) && a@ == f@,
                None => answer matches Some(a) && a@ == "Other"@,
            }
}

/// The view of a field that may be missing.
pub open spec fn field_view(field: Option<String>) -> Option<Seq<char>> {
    match field {
        Some(t) => Some(t@),
        None => None,
    }
}

/// A fresh Lua state, with the safe standard libraries, that has run `code`.
/// A script that never ends, or that ends the program, keeps this call from
/// returning.
fn run_config(code: &str) -> (r: Result<RulesState, String>)
    ensures
        r matches Err(e) ==> message_with_prefix(e@, "Ошибка выполнения Lua: "@),
{
    let state = RulesState { lua: lua_new() };
    match lua_exec(&state, code) {
        Ok(()) => Ok(state),
        Err(e) => Err(error_message("Ошибка выполнения Lua: ", &e)),
    }
}

/// Runs the text of a configuration file in a fresh Lua state.
pub fn load_config(code: &str) -> (r: Result<(), String>)
    ensures
        r matches Err(e) ==> message_with_prefix(e@, "Ошибка выполнения Lua: "@),
{
    match run_config(code) {
        Ok(_) => Ok(()),
        Err(e) => Err(e),
    }
}

/// The names of the rules in the global table `SortRules` after running
/// `code`, in the order Lua walks the table; a rule whose `name` does not read
/// as a string is skipped. Every walked rule is looked at.
pub fn get_sort_rules(code: &str) -> (r: Result<Vec<String>, String>)
    ensures
        r matches Ok(list) ==> exists|tables: Vec<mlua::Table>, names: Seq<Option<String>>|
            #[trigger] sort_rules_walked(tables) && names.len() == tables@.len()
                && (forall|i: int| 0 <= i < names.len() ==> string_field_read(tables@[i], "name"@, #[trigger] names[i]))
                && list@.map_values(|s: String| s@) == #[trigger] present_names(names),
        r matches Err(e) ==> {
            ||| message_with_prefix(e@, "Ошибка выполнения Lua: "@)
            ||| message_with_prefix(e@, "SortRules не найден: "@)
            ||| message_with_prefix(e@, "Ошибка чтения правила: "@)
        },
{
    let state = run_config(code)?;
    let globals = lua_globals(&state);
    let get_table = table_get_table;
    let sort_rules = match get_table(&globals, "SortRules") {
        Ok(t) => t,
        Err(e) => {
            return Err(error_message("SortRules не найден: ", &e));
        },
    };
    let walk = table_pair_tables;
    let rules = match walk(&sort_rules) {
        Ok(rules) => rules,
        Err(e) => {
            return Err(error_message("Ошибка чтения правила: ", &e));
        },
    };
    assert(sort_rules_walked(rules));
    let get_string = table_get_string;
    let mut names: Vec<Option<String>> = Vec::new();
    for i in 0..rules.len()
        invariant
            names@.len() == i,
            forall|j: int| 0 <= j < i ==> string_field_read(rules@[j], "name"@, #[trigger] names@[j]),
    {
        let read = get_string(&rules[i], "name");
        let ghost res = read;
        let name = match read {
            Ok(n) => Some(n),
            Err(_) => None,
        };
        assert(string_field_read(rules@[i as int], "name"@, name));
        names.push(name);
    }
    let list = collect_rule_names(names);
    assert(names@.len() == rules@.len());
    Ok(list)
}

/// The wallpaper settings that `GetWallpaperForNow()` answers after running
/// `code`: its `type` field, or `"dark"` when the field does not read as a
/// string.
pub fn get_wallpaper_for_now(code: &str) -> (r: Result<WallpaperSettings, String>)
    ensures
        r matches Ok(s) ==> s.color_start is None && s.color_end is None,
        r matches Ok(s) ==> exists|t: mlua::Table, field: Option<String>|
            #[trigger] wallpaper_rule_answered(t) && #[trigger] string_field_read(t, "type"@, field)
                && s.wallpaper_type@ == wallpaper_type_of(field_view(field)),
        r matches Err(e) ==> {
            ||| message_with_prefix(e@, "Ошибка выполнения Lua: "@)
            ||| message_with_prefix(e@, "GetWallpaperForNow не найден: "@)
            ||| message_with_prefix(e@, "Ошибка вызова GetWallpaperForNow: "@)
        },
{
    let state = run_config(code)?;
    let globals = lua_globals(&state);
    let get_function = table_get_function;
    let get_wallpaper = match get_function(&globals, "GetWallpaperForNow") {
        Ok(f) => f,
        Err(e) => {
            return Err(error_message("GetWallpaperForNow не найден: ", &e));
        },
    };
    assert(global_function_read("GetWallpaperForNow"@, get_wallpaper));
    let call = function_call_for_table;
    let result = match call(&get_wallpaper) {
        Ok(t) => t,
        Err(e) => {
            return Err(error_message("Ошибка вызова GetWallpaperForNow: ", &e));
        },
    };
    assert(wallpaper_rule_answered(result));
    let get_string = table_get_string;
    let read = get_string(&result, "type");
    let field = match read {
        Ok(t) => Some(t),
        Err(_) => None,
    };
    assert(string_field_read(result, "type"@, field));
    let ghost fv = field_view(field);
    let settings = wallpaper_settings_from(field);
    assert(settings.wallpaper_type@ == wallpaper_type_of(fv));
    Ok(settings)
}

/// The fields of the table that describes a file to the sort rules: its
/// `name`, its `extension`, and its size `size_bytes`.
pub open spec fn file_fields(info: LuaFileInfo) -> Map<Seq<char>, LuaScalar> {
    no_fields().insert("name"@, LuaScalar::Text(info.name)).insert(
        "extension"@,
        LuaScalar::Text(info.extension),
    ).insert(
        "size_bytes"@,
        if info.size_bytes <= i64::MAX {
            LuaScalar::Integer(info.size_bytes as i64)
        } else {
            LuaScalar::Number
        },
    )
}

/// A new table in `state` that describes the file (see [`file_fields`]).
pub fn file_table(state: &RulesState, file_info: &LuaFileInfo) -> (r: Result<mlua::Table, String>)
    ensures
        r matches Ok(t) ==> lua_table_fields(t) == file_fields(*file_info),
        r matches Err(e) ==> {
            ||| message_with_prefix(e@, "Ошибка создания таблицы: "@)
            ||| message_with_prefix(e@, "Ошибка: "@)
        },
{
    let mut table = match lua_create_table(state) {
        Ok(t) => t,
        Err(e) => {
            return Err(error_message("Ошибка создания таблицы: ", &e));
        },
    };
    if let Err(e) = table_raw_set_text(&mut table, "name", file_info.name.clone()) {
        return Err(error_message("Ошибка: ", &e));
    }
    if let Err(e) = table_raw_set_text(&mut table, "extension", file_info.extension.clone()) {
        return Err(error_message("Ошибка: ", &e));
    }
    if let Err(e) = table_raw_set_unsigned(&mut table, "size_bytes", file_info.size_bytes) {
        return Err(error_message("Ошибка: ", &e));
    }
    Ok(table)
}

/// The folder that `ApplySortRules(file)` picks after running `code`, where
/// `file` is the table [`file_table`] makes for `file_info`:
/// the answer's `folder` field (`"Other"` when it does not read as a
/// string), or none when the answer is no table. Every file is handed to the
/// rule, whatever its name, extension or size.
pub fn apply_sort_rule(code: &str, file_info: &LuaFileInfo) -> (r: Result<Option<String>, String>)
    ensures
        r matches Ok(answer) ==> exists|v: mlua::Value|
            #[trigger] sort_rule_answered(*file_info, v) && rule_folder_read(v, answer),
        r matches Err(e) ==> {
            ||| message_with_prefix(e@, "Ошибка выполнения Lua: "@)
            ||| message_with_prefix(e@, "Ошибка создания таблицы: "@)
            ||| message_with_prefix(e@, "Ошибка: "@)
            ||| message_with_prefix(e@, "ApplySortRules не найден: "@)
            ||| message_with_prefix(e@, "Ошибка вызова ApplySortRules: "@)
        },
{
    let state = run_config(code)?;
    let globals = lua_globals(&state);
    let file_table = file_table(&state, file_info)?;
    let ghost arg = file_table;
    let get_function = table_get_function;
    let apply_rules = match get_function(&globals, "ApplySortRules") {
        Ok(f) => f,
        Err(e) => {
            return Err(error_message("ApplySortRules не найден: ", &e));
        },
    };
    assert(global_function_read("ApplySortRules"@, apply_rules));
    let call = function_call_with_table;
    let result = match call(&apply_rules, file_table) {
        Ok(v) => v,
        Err(e) => {
            return Err(error_message("Ошибка вызова ApplySortRules: ", &e));
        },
    };
    assert(call_ensures(function_call_with_table, (&apply_rules, arg), Ok::<mlua::Value, mlua::Error>(result)));
    assert(sort_rule_answered(*file_info, result));
    let as_table = value_as_table;
    let reply = match as_table(&result) {
        Some(tbl) => {
            let get_string = table_get_string;
            let read = get_string(&tbl, "folder");
            let folder = match read {
                Ok(f) => Some(f),
                Err(_) => None,
            };
            assert(string_field_read(tbl, "folder"@, folder));
            SortReply::Table { folder }
        },
        None => SortReply::NotTable,
    };
    let ghost g = reply;
    let answer = sort_rule_folder(reply);
    assert(rule_folder_read(result, answer));
    Ok(answer)
}

/// Reading the rule's answer `v` found the table `t`.
pub closed spec fn answer_is_table(v: mlua::Value, t: mlua::Table) -> bool {
    call_ensures(value_as_table, (&v,), Some(t))
}

/// Reading the rule's answer `v` found no table.
pub closed spec fn answer_is_no_table(v: mlua::Value) -> bool {
    call_ensures(value_as_table, (&v,), None::<mlua::Table>)
}

/// Every file is handed to the sort rule, and the rule's answer decides the
/// folder, whatever the file's name, extension or size: when
/// `apply_sort_rule` succeeds with `answer`, `ApplySortRules` was called with
/// a table describing the file and answered `v`; when `v` is a table whose
/// `folder` field reads as the string `f`, the answer is `f`; when the field
/// does not read as a string it is `"Other"`; only an answer that is no table
/// gives none.
pub proof fn sort_rule_answer_follows_the_rule(code: &str, file_info: &LuaFileInfo, answer: Option<String>)
    requires
        call_ensures(apply_sort_rule, (code, file_info), Ok::<Option<String>, String>(answer)),
    ensures
        exists|v: mlua::Value|
            #[trigger] sort_rule_answered(*file_info, v) && {
                ||| answer is None && answer_is_no_table(v)
                ||| exists|t: mlua::Table, folder: Option<String>|
                    #[trigger] answer_is_table(v, t) && #[trigger] string_field_read(t, "folder"@, folder)
                        && match folder {
                            Some(f) => answer matches Some(a) && a@ == f@,
                            None => answer matches Some(a) && a@ == "Other"@,
                        }
            },
{
    let v = choose|v: mlua::Value| #[trigger] sort_rule_answered(*file_info, v) && rule_folder_read(v, answer);
    assert(sort_rule_answered(*file_info, v));
    if !(answer is None && answer_is_no_table(v)) {
        let (t, folder) = choose|t: mlua::Table, folder: Option<String>|
            #[trigger] call_ensures(value_as_table, (&v,), Some(t)) && #[trigger] string_field_read(t, "folder"@, folder)
                && match folder {
                    Some(f) => answer matches Some(a) && a@ == f@,
                    None => answer matches Some(a) && a@ == "Other"@,
                };
        assert(answer_is_table(v, t) && string_field_read(t, "folder"@, folder));
    }
}

/// The wallpaper type is what `GetWallpaperForNow()` answered: when
/// `get_wallpaper_for_now` succeeds with `settings`, the function answered a
/// table `t`; when its `type` field reads as the string `ty`, the type is
/// `ty`, whatever it is, and only when the field does not read as a string is
/// it `"dark"`. No colours are chosen.
pub proof fn wallpaper_type_follows_the_rule(code: &str, settings: WallpaperSettings)
    requires
        call_ensures(get_wallpaper_for_now, (code,), Ok::<WallpaperSettings, String>(settings)),
    ensures
        settings.color_start is None && settings.color_end is None,
        exists|t: mlua::Table, field: Option<String>|
            #[trigger] wallpaper_rule_answered(t) && #[trigger] string_field_read(t, "type"@, field)
                && match field {
                    Some(ty) => settings.wallpaper_type@ == ty@,
                    None => settings.wallpaper_type@ == "dark"@,
                },
{
    let (t, field) = choose|t: mlua::Table, field: Option<String>|
        #[trigger] wallpaper_rule_answered(t) && #[trigger] string_field_read(t, "type"@, field)
            && settings.wallpaper_type@ == wallpaper_type_of(field_view(field));
    assert(wallpaper_rule_answered(t) && string_field_read(t, "type"@, field));
}

/// Every rule of `SortRules` is looked at, in the order Lua walks them: when
/// `get_sort_rules` succeeds with `list`, the walk gave the rule tables
/// `tables`, the `name` field of each was read (`names[i]` for `tables[i]`),
/// and `list` holds, in order, exactly the names that read as strings; so it
/// has no more entries than there are rules.
pub proof fn sort_rule_list_follows_the_walk(code: &str, list: Vec<String>)
    requires
        call_ensures(get_sort_rules, (code,), Ok::<Vec<String>, String>(list)),
    ensures
        exists|tables: Vec<mlua::Table>, names: Seq<Option<String>>|
            #![trigger sort_rules_walked(tables), present_names(names)]
            sort_rules_walked(tables) && names.len() == tables@.len()
                && (forall|i: int| 0 <= i < names.len() ==> string_field_read(tables@[i], "name"@, #[trigger] names[i]))
                && list@.map_values(|s: String| s@) == present_names(names)
                && list@.len() <= tables@.len(),
{
    let (tables, names) = choose|tables: Vec<mlua::Table>, names: Seq<Option<String>>|
        #[trigger] sort_rules_walked(tables) && names.len() == tables@.len()
            && (forall|i: int| 0 <= i < names.len() ==> string_field_read(tables@[i], "name"@, #[trigger] names[i]))
            && list@.map_values(|s: String| s@) == #[trigger] present_names(names);
    lemma_present_names_len(names);
    assert(list@.len() == list@.map_values(|s: String| s@).len());
}

proof fn lemma_present_names_len(names: Seq<Option<String>>)
    ensures
        present_names(names).len() <= names.len(),
    decreases names.len(),
{
    if names.len() > 0 {
        lemma_present_names_len(names.drop_last());
    }
}

/// The theme stored in `Config.theme` after running `code`.
pub fn get_theme(code: &str) -> (r: Result<String, String>)
    ensures
        r matches Err(e) ==> {
            ||| message_with_prefix(e@, "Ошибка выполнения Lua: "@)
            ||| message_with_prefix(e@, "Config не найден: "@)
            ||| message_with_prefix(e@, "Config.theme не найден: "@)
        },
{
    let state = run_config(code)?;
    let globals = lua_globals(&state);
    let config = match table_get_table(&globals, "Config") {
        Ok(t) => t,
        Err(e) => {
            return Err(error_message("Config не найден: ", &e));
        },
    };
    match table_get_string(&config, "theme") {
        Ok(t) => Ok(t),
        Err(e) => Err(error_message("Config.theme не найден: ", &e)),
    }
}

/// The configuration `code` with the theme `name` stored: a statement that
/// sets `Config.theme` (making `Config` a table when it is none) is added at
/// the end, so that it overrides any earlier setting when the file runs.
pub open spec fn with_theme_text(code: Seq<char>, name: Seq<char>) -> Seq<char> {
    code + "\nConfig = Config or {}\nConfig.theme = \""@ + name + "\"\n"@
}

/// Stores the theme `name` in the configuration text `code` (see
/// [`with_theme_text`]).
pub fn save_theme(code: &str, name: &str) -> (r: String)
    ensures
        r@ == with_theme_text(code@, name@),
{
    let mut r = String::from_str(code);
    r.append("\nConfig = Config or {}\nConfig.theme = \"");
    r.append(name);
    r.append("\"\n");
    r
}

} // verus!
