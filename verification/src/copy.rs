//! Sorting files into folders: which folder each analysed file goes to, the
//! task list handed to the copy engine, and the copy session that falls back
//! to copying file by file when the engine is not available.

use vstd::prelude::*;
use vstd::string::*;
use crate::brain::{FileAnalysis, FileAnalysisView};
use crate::lua::{apply_sort_rule, LuaFileInfo};

verus! {

/// The folder chosen for `item` from what its sort rule answered: the rule's
/// folder, or the folder the analysis suggested when the rule chose none or
/// failed.
pub open spec fn chosen_folder(rule: Result<Option<String>, String>, item: FileAnalysisView) -> Seq<char> {
    match rule {
        Ok(Some(folder)) => folder@,
        _ => item.target_folder,
    }
}

/// The folder chosen from a rule's answer (see [`chosen_folder`]).
pub fn choose_folder(rule: &Result<Option<String>, String>, item: &FileAnalysis) -> (r: String)
    ensures
        r@ == chosen_folder(*rule, item@),
{
    match rule {
        Ok(Some(folder)) => folder.clone(),
        _ => item.target_folder.clone(),
    }
}

/// The sort rules decide a file's folder first: a folder that they name is
/// the file's folder, and only when they name none or fail does the folder
/// that the analysis suggested count.
pub proof fn rules_decide_first(answer: Result<Option<String>, String>, item: FileAnalysisView)
    ensures
        answer matches Ok(Some(folder)) ==> chosen_folder(answer, item) == folder@,
        !(answer matches Ok(Some(_))) ==> chosen_folder(answer, item) == item.target_folder,
{
}

/// The view of a rule's answer.
pub open spec fn answer_view(answer: Result<Option<String>, String>) -> Result<Option<Seq<char>>, Seq<char>> {
    match answer {
        Ok(Some(f)) => Ok(Some(f@)),
        Ok(None) => Ok(None),
        Err(e) => Err(e@),
    }
}

/// The description of `item` that the sort rules are handed: its name, its
/// extension and its size.
pub open spec fn file_info_of(item: FileAnalysis) -> LuaFileInfo {
    LuaFileInfo { name: item.name, extension: item.extension, size_bytes: item.size_bytes }
}

/// The description of `item` that the sort rules are handed (see
/// [`file_info_of`]).
pub fn lua_file_info(item: &FileAnalysis) -> (r: LuaFileInfo)
    ensures
        r == file_info_of(*item),
{
    LuaFileInfo {
        name: item.name.clone(),
        extension: item.extension.clone(),
        size_bytes: item.size_bytes,
    }
}

/// `answer` is what the sort rules may answer for `item`: when the rules file
/// was read, an answer that [`apply_sort_rule`] may give for its text and the
/// description of `item`; otherwise why it could not be read.
pub open spec fn rule_answer(rules: Result<String, String>, item: FileAnalysis, answer: Result<Option<String>, String>) -> bool {
    match rules {
        Ok(code) => exists|c: &str| c@ == code@ && #[trigger] call_ensures(apply_sort_rule, (c, &file_info_of(item)), answer),
        Err(e) => answer_view(answer) == Err::<Option<Seq<char>>, Seq<char>>(e@),
    }
}

/// What the user's sort rules answer for `item`: `rules` is the text of the
/// rules file, or why it could not be read (which is then the answer).
pub fn sort_rule_answer(item: &FileAnalysis, rules: &Result<String, String>) -> (r: Result<Option<String>, String>)
    ensures
        rule_answer(*rules, *item, r),
{
    match rules {
        Ok(code) => {
            let info = lua_file_info(item);
            let text = code.as_str();
            // Called through a function value, so that the answer is known to
            // be one that `apply_sort_rule` may give for these arguments.
            let apply = apply_sort_rule;
            let answer = apply(text, &info);
            assert(call_ensures(apply_sort_rule, (text, &file_info_of(*item)), answer));
            answer
        },
        Err(e) => Err(e.clone()),
    }
}

/// What the sort rules answer for each file, in order (see
/// [`sort_rule_answer`]).
pub fn sort_rule_answers(files: &Vec<FileAnalysis>, rules: &Result<String, String>) -> (r: Vec<Result<Option<String>, String>>)
    ensures
        r@.len() == files@.len(),
        forall|i: int| 0 <= i < files@.len() ==> rule_answer(*rules, files@[i], #[trigger] r@[i]),
{
    let mut r: Vec<Result<Option<String>, String>> = Vec::new();
    for i in 0..files.len()
        invariant
            r@.len() == i,
            forall|j: int| 0 <= j < i ==> rule_answer(*rules, files@[j], #[trigger] r@[j]),
    {
        r.push(sort_rule_answer(&files[i], rules));
    }
    r
}

/// The folder a file goes to: the user's sort rules decide first, then the
/// folder the analysis suggested (see [`sort_rule_answer`] and
/// [`chosen_folder`]). Every file gets a folder, also one without an
/// extension.
pub fn target_folder_for(item: &FileAnalysis, rules: &Result<String, String>) -> (r: String)
    ensures
        exists|answer: Result<Option<String>, String>|
            #[trigger] rule_answer(*rules, *item, answer) && r@ == chosen_folder(answer, item@),
{
    let answer = sort_rule_answer(item, rules);
    let r = choose_folder(&answer, item);
    assert(rule_answer(*rules, *item, answer));
    r
}

/// One file to copy.
#[derive(Debug)]
pub struct CopyJob {
    pub source: String,
    pub destination: String,
}

/// Where a file named `name` that goes to `folder` is copied under `dest_dir`.
pub open spec fn copy_destination(dest_dir: Seq<char>, folder: Seq<char>, name: Seq<char>) -> Seq<char> {
    dest_dir + "/"@ + folder + "/"@ + name
}

/// The folder the sorted copies go to.
pub open spec fn sorted_dir_of(source_dir: Seq<char>) -> Seq<char> {
    source_dir + "/Sorted"@
}

/// The folder the sorted copies of `source_dir` go to.
pub fn sorted_dir(source_dir: &str) -> (r: String)
    ensures
        r@ == sorted_dir_of(source_dir@),
{
    let mut r = String::from_str(source_dir);
    r.append("/Sorted");
    r
}

/// The copy job of each file, where `folders[i]` is the folder of `files[i]`.
pub fn copy_jobs(files: &Vec<FileAnalysis>, dest_dir: &str, folders: &Vec<String>) -> (r: Vec<CopyJob>)
    requires
        folders@.len() == files@.len(),
    ensures
        r@.len() == files@.len(),
        forall|i: int|
            0 <= i < files@.len() ==> {
                &&& (#[trigger] r@[i]).source@ == files@[i].path@
                &&& r@[i].destination@ == copy_destination(dest_dir@, folders@[i]@, files@[i].name@)
            },
{
    let mut r: Vec<CopyJob> = Vec::new();
    for i in 0..files.len()
        invariant
            folders@.len() == files@.len(),
            r@.len() == i,
            forall|j: int|
                0 <= j < i ==> {
                    &&& (#[trigger] r@[j]).source@ == files@[j].path@
                    &&& r@[j].destination@ == copy_destination(dest_dir@, folders@[j]@, files@[j].name@)
                },
    {
        let mut destination = String::from_str(dest_dir);
        destination.append("/");
        destination.append(folders[i].as_str());
        destination.append("/");
        destination.append(files[i].name.as_str());
        r.push(CopyJob { source: files[i].path.clone(), destination });
    }
    r
}

/// The task list of the copy engine: one line `source|destination` per job.
pub open spec fn tasks_text(jobs: Seq<CopyJob>) -> Seq<char>
    decreases jobs.len(),
{
    if jobs.len() == 0 {
        Seq::empty()
    } else {
        tasks_text(jobs.drop_last()) + jobs.last().source@ + "|"@ + jobs.last().destination@
            + "\n"@
    }
}

/// How many line breaks `s` holds.
pub open spec fn line_breaks(s: Seq<char>) -> nat
    decreases s.len(),
{
    if s.len() == 0 {
        0
    } else {
        line_breaks(s.drop_last()) + if s.last() == '\n' {
            1nat
        } else {
            0nat
        }
    }
}

proof fn lemma_line_breaks_concat(a: Seq<char>, b: Seq<char>)
    ensures
        line_breaks(a + b) == line_breaks(a) + line_breaks(b),
    decreases b.len(),
{
    if b.len() == 0 {
        assert(a + b =~= a);
    } else {
        lemma_line_breaks_concat(a, b.drop_last());
        assert((a + b).drop_last() =~= a + b.drop_last());
    }
}

/// `job` names no path with a line break in it.
pub open spec fn single_line(job: CopyJob) -> bool {
    line_breaks(job.source@) == 0 && line_breaks(job.destination@) == 0
}

/// The engine's task list has exactly one line per job when no path holds a
/// line break.
pub proof fn tasks_text_has_one_line_per_job(jobs: Seq<CopyJob>)
    requires
        forall|i: int| 0 <= i < jobs.len() ==> single_line(#[trigger] jobs[i]),
    ensures
        line_breaks(tasks_text(jobs)) == jobs.len(),
    decreases jobs.len(),
{
    if jobs.len() > 0 {
        let rest = jobs.drop_last();
        assert forall|i: int| 0 <= i < rest.len() implies single_line(#[trigger] rest[i]) by {
            assert(rest[i] == jobs[i]);
        }
        tasks_text_has_one_line_per_job(rest);
        let j = jobs.last();
        assert(single_line(jobs[jobs.len() - 1]));
        let a = tasks_text(rest);
        lemma_line_breaks_concat(a, j.source@);
        lemma_line_breaks_concat(a + j.source@, "|"@);
        lemma_line_breaks_concat(a + j.source@ + "|"@, j.destination@);
        lemma_line_breaks_concat(a + j.source@ + "|"@ + j.destination@, "\n"@);
        assert(line_breaks("|"@) == 0) by {
            reveal_strlit("|");
            assert("|"@ =~= seq!['|']);
            assert("|"@.drop_last() =~= Seq::<char>::empty());
            assert(line_breaks(Seq::<char>::empty()) == 0);
        }
        assert(line_breaks("\n"@) == 1) by {
            reveal_strlit("\n");
            assert("\n"@ =~= seq!['\n']);
            assert("\n"@.drop_last() =~= Seq::<char>::empty());
            assert(line_breaks(Seq::<char>::empty()) == 0);
        }
    }
}

/// The task list of the copy engine (see [`tasks_text`]).
pub fn copy_tasks_text(jobs: &Vec<CopyJob>) -> (r: String)
    ensures
        r@ == tasks_text(jobs@),
{
    let mut r = String::new();
    for i in 0..jobs.len()
        invariant
            r@ == tasks_text(jobs@.take(i as int)),
    {
        assert(jobs@.take(i + 1).drop_last() =~= jobs@.take(i as int));
        r.append(jobs[i].source.as_str());
        r.append("|");
        r.append(jobs[i].destination.as_str());
        r.append("\n");
    }
    assert(jobs@.take(jobs@.len() as int) =~= jobs@);
    r
}

/// The job of each file copies it to `dest_dir/<folder>/<name>`, with the
/// folder [`chosen_folder`] takes from the rule's answer for it.
pub open spec fn planned(jobs: Seq<CopyJob>, files: Seq<FileAnalysis>, dest_dir: Seq<char>, answers: Seq<Result<Option<String>, String>>) -> bool {
    &&& jobs.len() == files.len()
    &&& forall|i: int|
        0 <= i < files.len() ==> {
            &&& (#[trigger] jobs[i]).source@ == files[i].path@
            &&& jobs[i].destination@ == copy_destination(
                dest_dir,
                chosen_folder(answers[i], files[i]@),
                files[i].name@,
            )
        }
}

/// The copy jobs of the analysed files, where `answers[i]` is what the sort
/// rules answered for `files[i]` (see [`planned`]).
pub fn plan_copies(files: &Vec<FileAnalysis>, dest_dir: &str, answers: &Vec<Result<Option<String>, String>>) -> (r: Vec<CopyJob>)
    requires
        answers@.len() == files@.len(),
    ensures
        planned(r@, files@, dest_dir@, answers@),
{
    let mut folders: Vec<String> = Vec::new();
    for i in 0..files.len()
        invariant
            answers@.len() == files@.len(),
            folders@.len() == i,
            forall|j: int|
                0 <= j < i ==> (#[trigger] folders@[j])@ == chosen_folder(answers@[j], files@[j]@),
    {
        folders.push(choose_folder(&answers[i], &files[i]));
    }
    copy_jobs(files, dest_dir, &folders)
}

/// The task list for the copy engine of the analysed files (see
/// [`plan_copies`] and [`tasks_text`]).
pub fn build_copy_tasks(files: &Vec<FileAnalysis>, dest_dir: &str, answers: &Vec<Result<Option<String>, String>>) -> (r: String)
    requires
        answers@.len() == files@.len(),
    ensures
        exists|jobs: Seq<CopyJob>| planned(jobs, files@, dest_dir@, answers@) && r@ == tasks_text(jobs),
{
    let jobs = plan_copies(files, dest_dir, answers);
    copy_tasks_text(&jobs)
}

/// What the copy session asks for next.
#[derive(Debug)]
pub enum CopyAction {
    /// Hand the task list to the copy engine.
    RunEngine(String),
    /// Make sure the folder that will hold this destination exists.
    PrepareFolder(String),
    /// Copy one file.
    CopyFile { source: String, destination: String },
    /// The session is over: the number of files copied, or an error.
    Finished(Result<i32, String>),
}

/// The step a copy session waits in.
#[derive(PartialEq, Eq, Structural, Clone, Copy, Debug)]
pub enum CopyStage {
    Engine,
    Folder,
    File,
    Done,
}

/// Copying a list of files: first through the copy engine; when that is not
/// available, file by file, skipping a file whose folder could not be made
/// and counting the files that were copied.
#[derive(Debug)]
pub struct BatchCopy {
    jobs: Vec<CopyJob>,
    next: usize,
    copied: i32,
    stage: CopyStage,
}

impl BatchCopy {
    /// The jobs of the session.
    pub closed spec fn jobs(&self) -> Seq<CopyJob> {
        self.jobs@
    }

    /// How many jobs have been dealt with by the file-by-file copy.
    pub closed spec fn done(&self) -> nat {
        self.next as nat
    }

    /// How many files the file-by-file copy has copied.
    pub closed spec fn copied(&self) -> int {
        self.copied as int
    }

    /// The step the session waits in.
    pub closed spec fn stage(&self) -> CopyStage {
        self.stage
    }

    /// The session's counters stay within the job list.
    pub closed spec fn well_formed(&self) -> bool {
        &&& self.next <= self.jobs@.len()
        &&& 0 <= self.copied <= self.next
        &&& self.jobs@.len() <= i32::MAX
        &&& (self.stage == CopyStage::Folder || self.stage == CopyStage::File) ==> self.next
            < self.jobs@.len()
    }

    /// A session over `jobs`, and its first request: run the copy engine on
    /// the task list of the jobs.
    pub fn start(jobs: Vec<CopyJob>) -> (r: (BatchCopy, CopyAction))
        requires
            jobs@.len() <= i32::MAX,
        ensures
            r.0.well_formed(),
            r.0.jobs() == jobs@,
            r.0.stage() == CopyStage::Engine,
            r.0.done() == 0,
            r.0.copied() == 0,
            r.1 matches CopyAction::RunEngine(tasks) && tasks@ == tasks_text(jobs@),
    {
        let tasks = copy_tasks_text(&jobs);
        (BatchCopy { jobs, next: 0, copied: 0, stage: CopyStage::Engine }, CopyAction::RunEngine(tasks))
    }

    /// The request for the job at `self.next`, or the end of the session.
    fn continue_fallback(&mut self) -> (r: CopyAction)
        requires
            old(self).next <= old(self).jobs@.len(),
            0 <= old(self).copied <= old(self).next,
            old(self).jobs@.len() <= i32::MAX,
        ensures
            final(self).well_formed(),
            final(self).jobs == old(self).jobs,
            final(self).next == old(self).next,
            final(self).copied == old(self).copied,
            old(self).next == old(self).jobs@.len() ==> final(self).stage == CopyStage::Done && r
                == CopyAction::Finished(Ok::<i32, String>(old(self).copied)),
            old(self).next < old(self).jobs@.len() ==> final(self).stage == CopyStage::Folder
                && (r matches CopyAction::PrepareFolder(d) && d@ == old(self).jobs@[old(
                self,
            ).next as int].destination@),
    {
        if self.next == self.jobs.len() {
            self.stage = CopyStage::Done;
            CopyAction::Finished(Ok(self.copied))
        } else {
            self.stage = CopyStage::Folder;
            CopyAction::PrepareFolder(self.jobs[self.next].destination.clone())
        }
    }

    /// The copy engine answered: its count ends the session; when it failed,
    /// the files are copied one by one.
    pub fn engine_done(&mut self, result: Result<i32, String>) -> (r: CopyAction)
        requires
            old(self).well_formed(),
            old(self).stage() == CopyStage::Engine,
            old(self).done() == 0,
            old(self).copied() == 0,
        ensures
            final(self).well_formed(),
            final(self).jobs() == old(self).jobs(),
            final(self).done() == 0,
            final(self).copied() == 0,
            match result {
                Ok(n) => final(self).stage() == CopyStage::Done && r == CopyAction::Finished(
                    Ok::<i32, String>(n),
                ),
                Err(_) => if old(self).jobs().len() == 0 {
                    final(self).stage() == CopyStage::Done && r == CopyAction::Finished(
                        Ok::<i32, String>(0),
                    )
                } else {
                    final(self).stage() == CopyStage::Folder && (r matches CopyAction::PrepareFolder(
                        d,
                    ) && d@ == old(self).jobs()[0].destination@)
                },
            },
    {
        match result {
            Ok(n) => {
                self.stage = CopyStage::Done;
                CopyAction::Finished(Ok(n))
            },
            Err(_) => self.continue_fallback(),
        }
    }

    /// The folder of the current job was made (or not): copy the file, or
    /// skip it and go on with the next one.
    pub fn folder_ready(&mut self, ok: bool) -> (r: CopyAction)
        requires
            old(self).well_formed(),
            old(self).stage() == CopyStage::Folder,
        ensures
            final(self).well_formed(),
            final(self).jobs() == old(self).jobs(),
            final(self).copied() == old(self).copied(),
            ok ==> final(self).done() == old(self).done() && final(self).stage() == CopyStage::File
                && (r matches CopyAction::CopyFile { source, destination } && source@ == old(
                self,
            ).jobs()[old(self).done() as int].source@ && destination@ == old(self).jobs()[old(
                self,
            ).done() as int].destination@),
            !ok ==> final(self).done() == old(self).done() + 1 && next_request(*final(self), r),
    {
        if ok {
            self.stage = CopyStage::File;
            let job = &self.jobs[self.next];
            CopyAction::CopyFile { source: job.source.clone(), destination: job.destination.clone() }
        } else {
            self.next = self.next + 1;
            self.continue_fallback()
        }
    }

    /// The current file was copied (or not): count it, and go on with the
    /// next one.
    pub fn file_copied(&mut self, ok: bool) -> (r: CopyAction)
        requires
            old(self).well_formed(),
            old(self).stage() == CopyStage::File,
        ensures
            final(self).well_formed(),
            final(self).jobs() == old(self).jobs(),
            final(self).done() == old(self).done() + 1,
            final(self).copied() == old(self).copied() + if ok {
                1int
            } else {
                0int
            },
            next_request(*final(self), r),
    {
        if ok {
            self.copied = self.copied + 1;
        }
        self.next = self.next + 1;
        self.continue_fallback()
    }
}

/// Starts copying the analysed files of `source_dir` into
/// `source_dir/Sorted/<folder>/<name>`, where `answers[i]` is what the sort
/// rules answered for `files[i]` (see [`planned`]): the copy engine is asked
/// first.
pub fn batch_copy_files(source_dir: &str, files: &Vec<FileAnalysis>, answers: &Vec<Result<Option<String>, String>>) -> (r: (BatchCopy, CopyAction))
    requires
        files@.len() <= i32::MAX,
        answers@.len() == files@.len(),
    ensures
        r.0.well_formed(),
        r.0.stage() == CopyStage::Engine,
        r.0.done() == 0,
        r.0.copied() == 0,
        planned(r.0.jobs(), files@, sorted_dir_of(source_dir@), answers@),
        r.1 matches CopyAction::RunEngine(tasks) && tasks@ == tasks_text(r.0.jobs()),
{
    let dest_dir = sorted_dir(source_dir);
    let jobs = plan_copies(files, dest_dir.as_str(), answers);
    BatchCopy::start(jobs)
}

/// The size the copy engine reports for a file: a negative answer means
/// that the size is unknown.
pub fn engine_file_size(raw: i64) -> (r: Option<i64>)
    ensures
        raw < 0 ==> r is None,
        raw >= 0 ==> r == Some(raw),
{
    if raw < 0 {
        None
    } else {
        Some(raw)
    }
}

/// After a job of the file-by-file copy: the next job's folder is asked for,
/// or, after the last job, the session ends with the count of copied files.
pub open spec fn next_request(s: BatchCopy, r: CopyAction) -> bool {
    if s.done() == s.jobs().len() {
        s.stage() == CopyStage::Done && r == CopyAction::Finished(Ok::<i32, String>(s.copied() as i32))
    } else {
        s.stage() == CopyStage::Folder && (r matches CopyAction::PrepareFolder(d) && d@ == s.jobs()[s.done() as int].destination@)
    }
}

} // verus!
