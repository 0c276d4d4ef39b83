//! The image tool ("brain"): where its program is looked for, the arguments
//! of each command, and what its reply means.
//!
//! Launching the program and parsing its standard output happen outside the
//! library; the functions named after the commands take what came back and
//! decide the result.

use vstd::prelude::*;
use vstd::string::*;

use crate::json::{
    decode_lossy, json_document, json_document_error, json_list, json_list_error, json_member,
    json_text, json_unsigned, lossy_text, member_text_or, member_unsigned, parse_json_document,
    parse_json_list, text_or, JsonValue,
};
use crate::text::{concat3, i32_text, int_text};

verus! {

/// The operating system the tool runs on.
#[derive(PartialEq, Eq, Structural, Clone, Copy, Debug)]
pub enum Platform {
    Linux,
    Windows,
    Other,
}

/// The views of a list of texts.
pub open spec fn texts(v: Seq<String>) -> Seq<Seq<char>> {
    v.map_values(|s: String| s@)
}

/// Pushing a text adds its view at the end.
pub proof fn lemma_texts_push(s: Seq<String>, x: String)
    ensures
        texts(s.push(x)) == texts(s).push(x@),
{
    assert(texts(s.push(x)) =~= texts(s).push(x@));
}

/// The file name of the tool's program on `platform`.
pub open spec fn brain_bin_name_of(platform: Platform) -> Seq<char> {
    if platform == Platform::Windows {
        "brain.exe"@
    } else {
        "brain"@
    }
}

/// The file name of the copy engine's library on `platform`.
pub open spec fn engine_library_name_of(platform: Platform) -> Seq<char> {
    if platform == Platform::Windows {
        "engine.dll"@
    } else {
        "libengine.so"@
    }
}

/// The file name of the tool's program.
pub fn brain_bin_name(platform: Platform) -> (r: &'static str)
    ensures
        r@ == brain_bin_name_of(platform),
{
    if platform == Platform::Windows {
        "brain.exe"
    } else {
        "brain"
    }
}

/// The file name of the copy engine's library.
pub fn engine_library_name(platform: Platform) -> (r: &'static str)
    ensures
        r@ == engine_library_name_of(platform),
{
    if platform == Platform::Windows {
        "engine.dll"
    } else {
        "libengine.so"
    }
}

/// The places, relative to a resource base, where a component named `name`
/// in the folder `dir` is looked for: `dir/name`, `../dir/name`,
/// `../../dir/name`, then `name` itself.
pub open spec fn component_candidates(dir: Seq<char>, name: Seq<char>) -> Seq<Seq<char>> {
    seq![
        dir + "/"@ + name,
        "../"@ + dir + "/"@ + name,
        "../../"@ + dir + "/"@ + name,
        name,
    ]
}

fn component_candidate_list(dir: &str, name: &str) -> (r: Vec<String>)
    ensures
        texts(r@) == component_candidates(dir@, name@),
{
    let mut r: Vec<String> = Vec::new();
    r.push(concat3(dir, "/", name));
    let mut up = String::from_str("../");
    up.append(dir);
    r.push(concat3(up.as_str(), "/", name));
    let mut up2 = String::from_str("../../");
    up2.append(dir);
    r.push(concat3(up2.as_str(), "/", name));
    r.push(String::from_str(name));
    assert(texts(r@) =~= component_candidates(dir@, name@));
    r
}

/// Where the tool's program is looked for.
pub fn brain_bin_candidates(platform: Platform) -> (r: Vec<String>)
    ensures
        texts(r@) == component_candidates("brain"@, brain_bin_name_of(platform)),
{
    component_candidate_list("brain", brain_bin_name(platform))
}

/// Where the copy engine's library is looked for.
pub fn engine_library_candidates(platform: Platform) -> (r: Vec<String>)
    ensures
        texts(r@) == component_candidates("engine"@, engine_library_name_of(platform)),
{
    component_candidate_list("engine", engine_library_name(platform))
}

/// The message given when the tool's program is not found.
pub open spec fn brain_missing_message() -> Seq<char> {
    "brain (C) не найден. Соберите его: make -C brain"@
}

/// The tool's program, given where the search for it ended.
pub fn find_brain_bin(found: Option<String>) -> (r: Result<String, String>)
    ensures
        match found {
            Some(p) => r matches Ok(q) && q@ == p@,
            None => r matches Err(e) && e@ == brain_missing_message(),
        },
{
    match found {
        Some(p) => Ok(p),
        None => Err(String::from_str("brain (C) не найден. Соберите его: make -C brain")),
    }
}

/// The message given when the copy engine's library is not found.
pub fn engine_missing_message(platform: Platform) -> (r: String)
    ensures
        r@ == engine_library_name_of(platform) + " не найдена"@,
{
    let mut r = String::from_str(engine_library_name(platform));
    r.append(" не найдена");
    r
}

/// Arguments of the wallpaper command.
pub fn generate_args(wallpaper_type: &str, output: &str) -> (r: Vec<String>)
    ensures
        texts(r@) == seq!["generate"@, "--type"@, wallpaper_type@, "--output"@, output@],
{
    let mut r: Vec<String> = Vec::new();
    r.push(String::from_str("generate"));
    r.push(String::from_str("--type"));
    r.push(String::from_str(wallpaper_type));
    r.push(String::from_str("--output"));
    r.push(String::from_str(output));
    assert(texts(r@) =~= seq!["generate"@, "--type"@, wallpaper_type@, "--output"@, output@]);
    r
}

/// Arguments of the folder analysis command.
pub fn analyze_args(dirpath: &str) -> (r: Vec<String>)
    ensures
        texts(r@) == seq!["analyze"@, dirpath@],
{
    let mut r: Vec<String> = Vec::new();
    r.push(String::from_str("analyze"));
    r.push(String::from_str(dirpath));
    assert(texts(r@) =~= seq!["analyze"@, dirpath@]);
    r
}

/// Arguments of a command that draws `subject` (given after `flag`) into
/// `output` at the side length `size`.
fn drawing_args(command: &str, flag: &str, subject: &str, output: &str, size: i32) -> (r: Vec<
    String,
>)
    ensures
        texts(r@) == seq![
            command@,
            flag@,
            subject@,
            "--output"@,
            output@,
            "--size"@,
            int_text(size as int),
        ],
{
    let mut r: Vec<String> = Vec::new();
    r.push(String::from_str(command));
    r.push(String::from_str(flag));
    r.push(String::from_str(subject));
    r.push(String::from_str("--output"));
    r.push(String::from_str(output));
    r.push(String::from_str("--size"));
    r.push(i32_text(size));
    assert(texts(r@) =~= seq![
        command@,
        flag@,
        subject@,
        "--output"@,
        output@,
        "--size"@,
        int_text(size as int),
    ]);
    r
}

/// Arguments of the QR code command.
pub fn qrcode_args(text: &str, output: &str, size: i32) -> (r: Vec<String>)
    ensures
        texts(r@) == seq![
            "qrcode"@,
            "--text"@,
            text@,
            "--output"@,
            output@,
            "--size"@,
            int_text(size as int),
        ],
{
    drawing_args("qrcode", "--text", text, output, size)
}

/// Arguments of the avatar command.
pub fn avatar_args(name: &str, output: &str, size: i32) -> (r: Vec<String>)
    ensures
        texts(r@) == seq![
            "avatar"@,
            "--name"@,
            name@,
            "--output"@,
            output@,
            "--size"@,
            int_text(size as int),
        ],
{
    drawing_args("avatar", "--name", name, output, size)
}

/// Arguments of the image conversion command.
pub fn convert_args(input: &str, output: &str, format: &str) -> (r: Vec<String>)
    ensures
        texts(r@) == seq!["convert"@, input@, output@, "--format"@, format@],
{
    let mut r: Vec<String> = Vec::new();
    r.push(String::from_str("convert"));
    r.push(String::from_str(input));
    r.push(String::from_str(output));
    r.push(String::from_str("--format"));
    r.push(String::from_str(format));
    assert(texts(r@) =~= seq!["convert"@, input@, output@, "--format"@, format@]);
    r
}

/// How a run of the tool's program ended: whether it reported success, and
/// the bytes it wrote to its output and error streams.
#[derive(Debug)]
pub struct BrainExit {
    pub success: bool,
    pub stdout: Vec<u8>,
    pub stderr: Vec<u8>,
}

/// The view of a text result.
pub open spec fn result_view(r: Result<String, String>) -> Result<Seq<char>, Seq<char>> {
    match r {
        Ok(s) => Ok(s@),
        Err(e) => Err(e@),
    }
}

/// The error of a run that could not be started (`launch` holds why) or that
/// reported failure (with its decoded error stream); none for a successful
/// run.
pub open spec fn run_failure(launch: Result<BrainExit, String>) -> Option<Seq<char>> {
    match launch {
        Err(why) => Some("Ошибка запуска brain: "@ + why@),
        Ok(exit) => if exit.success {
            None
        } else {
            Some("brain ошибка: "@ + lossy_text(exit.stderr@))
        },
    }
}

/// The reply document parsed from a run's decoded output, or the parser's
/// error text.
pub open spec fn parsed_document(stdout: Seq<u8>) -> Result<JsonValue, Seq<char>> {
    match json_document(lossy_text(stdout)) {
        Some(v) => Ok(v),
        None => Err(json_document_error(lossy_text(stdout))),
    }
}

/// The reply list parsed from a run's decoded output, or the parser's error
/// text.
pub open spec fn parsed_list(stdout: Seq<u8>) -> Result<Vec<JsonValue>, Seq<char>> {
    match json_list(lossy_text(stdout)) {
        Some(v) => Ok(v),
        None => Err(json_list_error(lossy_text(stdout))),
    }
}

/// The result of a drawing command asked to write `output`, from its parsed
/// reply: the parse error, or the reply's `path` (the requested `output`
/// when the reply names none).
pub open spec fn drawing_reply_result(output: Seq<char>, reply: Result<JsonValue, Seq<char>>) -> Result<Seq<char>, Seq<char>> {
    match reply {
        Err(why) => Err("Ошибка парсинга ответа: "@ + why),
        Ok(v) => Ok(text_or(json_text(json_member(v, "path"@)), output)),
    }
}

/// The result of a drawing command asked to write `output`: the run's error,
/// or what its reply says (see [`drawing_reply_result`]).
pub open spec fn drawing_result(output: Seq<char>, launch: Result<BrainExit, String>) -> Result<Seq<char>, Seq<char>> {
    match run_failure(launch) {
        Some(e) => Err(e),
        None => drawing_reply_result(output, parsed_document(launch->Ok_0.stdout@)),
    }
}

/// The view of a parse result.
pub open spec fn reply_view<T>(reply: Result<T, String>) -> Result<T, Seq<char>> {
    match reply {
        Ok(v) => Ok(v),
        Err(e) => Err(e@),
    }
}

fn check_run(launch: &Result<BrainExit, String>) -> (r: Option<String>)
    ensures
        match r {
            Some(e) => run_failure(*launch) == Some(e@),
            None => run_failure(*launch) is None,
        },
{
    match launch {
        Err(why) => {
            let mut e = String::from_str("Ошибка запуска brain: ");
            e.append(why.as_str());
            Some(e)
        },
        Ok(exit) => if exit.success {
            None
        } else {
            let mut e = String::from_str("brain ошибка: ");
            let text = decode_lossy(exit.stderr.as_slice());
            e.append(text.as_str());
            Some(e)
        },
    }
}

fn parse_output_document(stdout: &Vec<u8>) -> (r: Result<JsonValue, String>)
    ensures
        reply_view(r) == parsed_document(stdout@),
{
    let text = decode_lossy(stdout.as_slice());
    parse_json_document(text.as_str())
}

/// What the reply of a drawing command asked to write `output` says (see
/// [`drawing_reply_result`]).
pub fn drawing_reply(output: &str, reply: Result<JsonValue, String>) -> (r: Result<String, String>)
    ensures
        result_view(r) == drawing_reply_result(output@, reply_view(reply)),
{
    match reply {
        Err(why) => {
            let mut e = String::from_str("Ошибка парсинга ответа: ");
            e.append(why.as_str());
            Err(e)
        },
        Ok(v) => Ok(member_text_or(&v, "path", output)),
    }
}

fn drawing_outcome(output: &str, launch: Result<BrainExit, String>) -> (r: Result<String, String>)
    ensures
        result_view(r) == drawing_result(output@, launch),
{
    if let Some(e) = check_run(&launch) {
        return Err(e);
    }
    match &launch {
        Ok(exit) => drawing_reply(output, parse_output_document(&exit.stdout)),
        Err(_) => Err(String::new()),
    }
}

/// The wallpaper written by the wallpaper command (see [`drawing_result`]).
pub fn run_brain_generate(output: &str, launch: Result<BrainExit, String>) -> (r: Result<String, String>)
    ensures
        result_view(r) == drawing_result(output@, launch),
{
    drawing_outcome(output, launch)
}

/// The image written by the QR code command (see [`drawing_result`]).
pub fn run_brain_qrcode(output: &str, launch: Result<BrainExit, String>) -> (r: Result<String, String>)
    ensures
        result_view(r) == drawing_result(output@, launch),
{
    drawing_outcome(output, launch)
}

/// The image written by the avatar command (see [`drawing_result`]).
pub fn run_brain_avatar(output: &str, launch: Result<BrainExit, String>) -> (r: Result<String, String>)
    ensures
        result_view(r) == drawing_result(output@, launch),
{
    drawing_outcome(output, launch)
}

/// The converted image: `output` unless the run failed.
pub fn run_brain_convert(output: &str, launch: Result<BrainExit, String>) -> (r: Result<String, String>)
    ensures
        result_view(r) == match run_failure(launch) {
            Some(e) => Err(e),
            None => Ok(output@),
        },
{
    match check_run(&launch) {
        Some(e) => Err(e),
        None => Ok(String::from_str(output)),
    }
}

/// One file of an analysed folder.
#[derive(Debug, Clone)]
pub struct FileAnalysis {
    pub name: String,
    pub path: String,
    pub extension: String,
    pub size: String,
    pub size_bytes: u64,
    pub category: String,
    pub target_folder: String,
}

/// The view of a [`FileAnalysis`].
pub struct FileAnalysisView {
    pub name: Seq<char>,
    pub path: Seq<char>,
    pub extension: Seq<char>,
    pub size: Seq<char>,
    pub size_bytes: u64,
    pub category: Seq<char>,
    pub target_folder: Seq<char>,
}

impl View for FileAnalysis {
    type V = FileAnalysisView;

    open spec fn view(&self) -> FileAnalysisView {
        FileAnalysisView {
            name: self.name@,
            path: self.path@,
            extension: self.extension@,
            size: self.size@,
            size_bytes: self.size_bytes,
            category: self.category@,
            target_folder: self.target_folder@,
        }
    }
}

/// The file described by one item of the analysis reply; a missing field
/// takes its default (`unknown`, empty, `?`, `0`, `Other`).
pub open spec fn analysis_of(item: JsonValue) -> FileAnalysisView {
    FileAnalysisView {
        name: text_or(json_text(json_member(item, "name"@)), "unknown"@),
        path: text_or(json_text(json_member(item, "path"@)), ""@),
        extension: text_or(json_text(json_member(item, "extension"@)), ""@),
        size: text_or(json_text(json_member(item, "size_human"@)), "?"@),
        size_bytes: match json_unsigned(json_member(item, "size_bytes"@)) {
            Some(n) => n,
            None => 0,
        },
        category: text_or(json_text(json_member(item, "category"@)), "Other"@),
        target_folder: text_or(json_text(json_member(item, "suggested_folder"@)), "Other"@),
    }
}

/// Reads one item of the analysis reply (see [`analysis_of`]).
pub fn file_analysis_from(item: &JsonValue) -> (r: FileAnalysis)
    ensures
        r@ == analysis_of(*item),
{
    FileAnalysis {
        name: member_text_or(item, "name", "unknown"),
        path: member_text_or(item, "path", ""),
        extension: member_text_or(item, "extension", ""),
        size: member_text_or(item, "size_human", "?"),
        size_bytes: match member_unsigned(item, "size_bytes") {
            Some(n) => n,
            None => 0,
        },
        category: member_text_or(item, "category", "Other"),
        target_folder: member_text_or(item, "suggested_folder", "Other"),
    }
}

/// The views of a list of analysed files.
pub open spec fn analyses(v: Seq<FileAnalysis>) -> Seq<FileAnalysisView> {
    v.map_values(|f: FileAnalysis| f@)
}

/// The files of the analysis reply: the parse error, or one file per item of
/// the reply, in order.
pub open spec fn analysis_reply_result(reply: Result<Vec<JsonValue>, Seq<char>>) -> Result<Seq<FileAnalysisView>, Seq<char>> {
    match reply {
        Err(why) => Err("Ошибка парсинга JSON: "@ + why),
        Ok(items) => Ok(items@.map_values(|item: JsonValue| analysis_of(item))),
    }
}

/// The result of the analysis command: the run's error, or what its reply
/// says (see [`analysis_reply_result`]).
pub open spec fn analysis_result(launch: Result<BrainExit, String>) -> Result<Seq<FileAnalysisView>, Seq<char>> {
    match run_failure(launch) {
        Some(e) => Err(e),
        None => analysis_reply_result(parsed_list(launch->Ok_0.stdout@)),
    }
}

/// The view of a list of analysed files, or an error.
pub open spec fn analyses_view(r: Result<Vec<FileAnalysis>, String>) -> Result<Seq<FileAnalysisView>, Seq<char>> {
    match r {
        Ok(v) => Ok(analyses(v@)),
        Err(e) => Err(e@),
    }
}

/// The files that the analysis reply describes (see
/// [`analysis_reply_result`]).
pub fn analysis_reply(reply: Result<Vec<JsonValue>, String>) -> (r: Result<Vec<FileAnalysis>, String>)
    ensures
        analyses_view(r) == analysis_reply_result(reply_view(reply)),
{
    match reply {
        Err(why) => {
            let mut e = String::from_str("Ошибка парсинга JSON: ");
            e.append(why.as_str());
            Err(e)
        },
        Ok(items) => {
            let mut results: Vec<FileAnalysis> = Vec::new();
            for i in 0..items.len()
                invariant
                    results@.len() == i,
                    forall|j: int| 0 <= j < i ==> #[trigger] results@[j]@ == analysis_of(items@[j]),
            {
                results.push(file_analysis_from(&items[i]));
            }
            assert(analyses(results@) =~= items@.map_values(|item: JsonValue| analysis_of(item)));
            Ok(results)
        },
    }
}

/// The files of an analysed folder (see [`analysis_result`]).
pub fn run_brain_analyze(launch: Result<BrainExit, String>) -> (r: Result<Vec<FileAnalysis>, String>)
    ensures
        analyses_view(r) == analysis_result(launch),
{
    if let Some(e) = check_run(&launch) {
        return Err(e);
    }
    match &launch {
        Ok(exit) => {
            let text = decode_lossy(exit.stdout.as_slice());
            analysis_reply(parse_json_list(text.as_str()))
        },
        Err(_) => Err(String::new()),
    }
}

} // verus!
