use mangogeneration::brain::FileAnalysis;
use mangogeneration::copy::{
    batch_copy_files, build_copy_tasks, choose_folder, copy_tasks_text, engine_file_size,
    lua_file_info, plan_copies, sort_rule_answer, sort_rule_answers, sorted_dir, target_folder_for, CopyAction,
    CopyJob,
};

fn rules() -> Result<String, String> {
    Ok(RULES.to_string())
}

fn unreadable() -> Result<String, String> {
    Err("нет файла".to_string())
}

fn none_for(n: usize) -> Vec<Result<Option<String>, String>> {
    (0..n).map(|_| Ok(None)).collect()
}

const RULES: &str = r#"
function ApplySortRules(file)
    if file.extension == "png" then return { folder = "Pictures" } end
    return nil
end
"#;

fn file(name: &str, extension: &str, folder: &str) -> FileAnalysis {
    FileAnalysis {
        name: name.to_string(),
        path: format!("/src/{}", name),
        extension: extension.to_string(),
        size: "1 B".to_string(),
        size_bytes: 1,
        category: "Other".to_string(),
        target_folder: folder.to_string(),
    }
}

#[test]
fn rule_folder_wins_over_analysis() {
    let f = file("a.png", "png", "Images");
    assert_eq!(choose_folder(&Ok(Some("X".to_string())), &f), "X");
    assert_eq!(choose_folder(&Ok(None), &f), "Images");
    assert_eq!(choose_folder(&Err("e".to_string()), &f), "Images");
    assert_eq!(target_folder_for(&f, &rules()), "Pictures");
    assert_eq!(target_folder_for(&file("README", "", "Other"), &rules()), "Other");
    assert_eq!(target_folder_for(&f, &unreadable()), "Images");
    assert_eq!(target_folder_for(&f, &Ok("broken((".to_string())), "Images");
    assert_eq!(sort_rule_answer(&f, &unreadable()), Err("нет файла".to_string()));
    assert_eq!(sort_rule_answer(&f, &rules()), Ok(Some("Pictures".to_string())));
}

#[test]
fn rules_are_handed_the_file_description() {
    let mut f = file("photo.jpeg", "jpeg", "Images");
    f.size_bytes = 123456;
    let info = lua_file_info(&f);
    assert_eq!(info.name, "photo.jpeg");
    assert_eq!(info.extension, "jpeg");
    assert_eq!(info.size_bytes, 123456);
    let by_size = Ok(r#"
function ApplySortRules(file)
    if file.size_bytes > 100000 then return { folder = "Big/" .. file.extension } end
    return { folder = "Small" }
end
"#
    .to_string());
    assert_eq!(target_folder_for(&f, &by_size), "Big/jpeg");
    assert_eq!(target_folder_for(&file("a.txt", "txt", "Docs"), &by_size), "Small");
    let answers = sort_rule_answers(&vec![f, file("a.txt", "txt", "Docs")], &by_size);
    assert_eq!(answers, vec![Ok(Some("Big/jpeg".to_string())), Ok(Some("Small".to_string()))]);
}

#[test]
fn task_list_format() {
    let files = vec![file("a.png", "png", "Images"), file("b.txt", "txt", "Docs")];
    assert_eq!(sorted_dir("/src"), "/src/Sorted");
    assert_eq!(
        build_copy_tasks(&files, "/src/Sorted", &sort_rule_answers(&files, &rules())),
        "/src/a.png|/src/Sorted/Pictures/a.png\n/src/b.txt|/src/Sorted/Docs/b.txt\n"
    );
    assert_eq!(build_copy_tasks(&vec![], "/x", &vec![]), "");
    let jobs = plan_copies(&files, "/d", &none_for(2));
    assert_eq!(jobs[0].destination, "/d/Images/a.png");
    assert_eq!(copy_tasks_text(&vec![CopyJob { source: "s".to_string(), destination: "d".to_string() }]), "s|d\n");
}

#[test]
fn engine_success_ends_session() {
    let files = vec![file("a.png", "png", "Images")];
    let (mut session, action) = batch_copy_files("/src", &files, &none_for(1));
    match action {
        CopyAction::RunEngine(tasks) => assert_eq!(tasks, "/src/a.png|/src/Sorted/Images/a.png\n"),
        _ => panic!("the engine is asked first"),
    }
    match session.engine_done(Ok(1)) {
        CopyAction::Finished(r) => assert_eq!(r, Ok(1)),
        _ => panic!("the engine's count ends the session"),
    }
}

#[test]
fn fallback_counts_copied_files() {
    let files = vec![file("a", "", "A"), file("b", "", "B"), file("c", "", "C")];
    let (mut session, _) = batch_copy_files("/src", &files, &sort_rule_answers(&files, &unreadable()));
    let mut action = session.engine_done(Err("no library".to_string()));
    let mut folders = Vec::new();
    let mut copies = Vec::new();
    loop {
        action = match action {
            CopyAction::PrepareFolder(dst) => {
                folders.push(dst.clone());
                // the folder of the second file cannot be made
                session.folder_ready(!dst.ends_with("/b"))
            }
            CopyAction::CopyFile { source, destination } => {
                copies.push((source.clone(), destination));
                session.file_copied(source != "/src/c")
            }
            CopyAction::Finished(r) => {
                assert_eq!(r, Ok(1));
                break;
            }
            CopyAction::RunEngine(_) => panic!("the engine is asked once"),
        };
    }
    assert_eq!(folders.len(), 3);
    assert_eq!(copies, vec![
        ("/src/a".to_string(), "/src/Sorted/A/a".to_string()),
        ("/src/c".to_string(), "/src/Sorted/C/c".to_string()),
    ]);
}

#[test]
fn fallback_with_no_files() {
    let (mut session, _) = batch_copy_files("/src", &vec![], &vec![]);
    match session.engine_done(Err("e".to_string())) {
        CopyAction::Finished(r) => assert_eq!(r, Ok(0)),
        _ => panic!(),
    }
}

#[test]
fn engine_sizes() {
    assert_eq!(engine_file_size(-1), None);
    assert_eq!(engine_file_size(0), Some(0));
    assert_eq!(engine_file_size(42), Some(42));
}

#[test]
fn one_task_line_per_file() {
    let files = vec![file("a", "", "A"), file("b", "", "B"), file("c", "", "C")];
    let tasks = build_copy_tasks(&files, "/dest", &none_for(3));
    assert_eq!(tasks.matches('\n').count(), files.len());
    for (line, f) in tasks.lines().zip(files.iter()) {
        assert_eq!(line, format!("{}|/dest/{}/{}", f.path, f.target_folder, f.name));
    }
}
