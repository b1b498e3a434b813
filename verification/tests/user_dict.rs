use open_jtalk_engine::blocking::{OpenJtalk, Opening, OpeningReply};
use open_jtalk_engine::error::{ErrorRepr, UseUserDictError};
use open_jtalk_engine::tokio;
use open_jtalk_engine::user_dict::{UserDictReply, UserDictUpdate};
use std::io;
use std::sync::Mutex;

/// Files and a MeCab that answer every call as they were told to, and note the calls.
struct Script {
    csv_created: bool,
    csv_written: bool,
    dict_created: bool,
    loaded: bool,
    calls: Vec<String>,
    args: Vec<String>,
}

impl Script {
    fn succeeding() -> Script {
        Script {
            csv_created: true,
            csv_written: true,
            dict_created: true,
            loaded: true,
            calls: Vec::new(),
            args: Vec::new(),
        }
    }

    fn io(ok: bool, reason: &'static str) -> UserDictReply {
        UserDictReply::Io(if ok { Ok(()) } else { Err(io::Error::other(reason)) })
    }

    fn drive(&mut self, mut run: UserDictUpdate) -> Result<(), ErrorRepr> {
        loop {
            if let Some(args) = run.mecab_dict_index_args() {
                self.args = args.iter().map(|arg| arg.to_string()).collect();
            }
            let name = format!("{:?}", run);
            let name = name.split_whitespace().next().unwrap().to_owned();
            let reply = match &run {
                UserDictUpdate::CreateCsv { .. } => Script::io(self.csv_created, "csv"),
                UserDictUpdate::WriteCsv { words, .. } => {
                    self.calls.push(format!("words {}", words));
                    Script::io(self.csv_written, "words")
                }
                UserDictUpdate::CreateDict { .. } => Script::io(self.dict_created, "dict"),
                UserDictUpdate::DictPath { .. } => UserDictReply::Path("/tmp/dict".to_owned()),
                UserDictUpdate::CsvPath { .. } => UserDictReply::Path("/tmp/csv".to_owned()),
                UserDictUpdate::Load { dict_dir, user_dict } => {
                    self.calls.push(format!("load {} {}", dict_dir, user_dict));
                    UserDictReply::Loaded(self.loaded)
                }
                _ => UserDictReply::Done,
            };
            if let UserDictUpdate::Finished { result } = run {
                return result;
            }
            self.calls.push(name);
            run = run.resume(reply);
        }
    }
}

fn open<R>(dict_dir: &str, resources: R, loaded: bool) -> Result<OpenJtalk<R>, ErrorRepr> {
    let run = OpenJtalk::new(dict_dir);
    assert!(matches!(&run, Opening::Initialize { dict_dir: d } if d == dict_dir));
    let run = run.resume(OpeningReply::Initialized(resources));
    assert!(matches!(&run, Opening::Load { dict_dir: d, .. } if d == dict_dir));
    match run.resume(OpeningReply::Loaded(loaded)) {
        Opening::Finished { result } => result,
        _ => panic!("not finished"),
    }
}

fn engine() -> OpenJtalk<()> {
    open("/dic", (), true).unwrap()
}

fn io_reason(result: Result<(), ErrorRepr>) -> String {
    match result {
        Err(ErrorRepr::UseUserDict(UseUserDictError::Io(error))) => error.to_string(),
        other => panic!("{:?}", other),
    }
}

#[test]
fn a_user_dictionary_is_compiled_and_loaded() {
    let mut script = Script::succeeding();
    let result = script.drive(engine().use_user_dict("word,1348"));
    assert!(result.is_ok());
    assert_eq!(
        script.calls,
        vec![
            "CreateCsv",
            "words word,1348",
            "WriteCsv",
            "CreateDict",
            "DictPath",
            "CsvPath",
            "Compile",
            "Lock",
            "load /dic /tmp/dict",
            "Load",
            "Unlock",
            "RemoveDict",
            "RemoveCsv",
        ]
    );
    assert_eq!(
        script.args,
        vec![
            "mecab-dict-index",
            "-d",
            "/dic",
            "-u",
            "/tmp/dict",
            "-f",
            "utf-8",
            "-t",
            "utf-8",
            "/tmp/csv",
            "-q",
        ]
    );
}

#[test]
fn a_dictionary_that_is_not_loaded_is_an_error() {
    let mut script = Script::succeeding();
    script.loaded = false;
    let result = script.drive(engine().use_user_dict("word"));
    assert!(matches!(
        result,
        Err(ErrorRepr::UseUserDict(UseUserDictError::Message("辞書のコンパイルに失敗しました")))
    ));
    assert_eq!(script.calls[10..], ["Unlock", "RemoveDict", "RemoveCsv"]);
}

#[test]
fn without_the_first_file_nothing_is_removed() {
    let mut script = Script::succeeding();
    script.csv_created = false;
    assert_eq!(io_reason(script.drive(engine().use_user_dict("word"))), "csv");
    assert_eq!(script.calls, vec!["CreateCsv"]);
}

#[test]
fn a_file_that_could_not_be_written_is_removed() {
    let mut script = Script::succeeding();
    script.csv_written = false;
    assert_eq!(io_reason(script.drive(engine().use_user_dict("word"))), "words");
    assert_eq!(script.calls, vec!["CreateCsv", "words word", "WriteCsv", "RemoveCsv"]);
}

#[test]
fn without_the_second_file_the_first_is_removed() {
    let mut script = Script::succeeding();
    script.dict_created = false;
    assert_eq!(io_reason(script.drive(engine().use_user_dict("word"))), "dict");
    assert_eq!(
        script.calls,
        vec!["CreateCsv", "words word", "WriteCsv", "CreateDict", "RemoveCsv"]
    );
}

#[test]
fn later_words_need_another_call() {
    let engine = engine();
    let mut words = String::from("old");
    let run = engine.use_user_dict(&words);
    words.push_str(" and new");
    let mut script = Script::succeeding();
    assert!(script.drive(run).is_ok());
    assert_eq!(script.calls[1], "words old");
    let mut script = Script::succeeding();
    assert!(script.drive(engine.use_user_dict(&words)).is_ok());
    assert_eq!(script.calls[1], "words old and new");
}

#[test]
fn an_update_ignores_a_reply_to_another_call() {
    let run = engine().use_user_dict("word");
    let before = format!("{:?}", run);
    let run = run.resume(UserDictReply::Loaded(true));
    assert_eq!(format!("{:?}", run), before);
    assert!(run.mecab_dict_index_args().is_none());
}

#[test]
fn an_analyser_needs_its_system_dictionary() {
    assert!(matches!(open("/missing", (), false), Err(ErrorRepr::NotLoadedOpenjtalkDict)));
    let opened = open("/missing", (), false);
    assert!(matches!(tokio::OpenJtalk::new(opened), Err(ErrorRepr::NotLoadedOpenjtalkDict)));
}

#[test]
fn an_opening_ignores_a_reply_to_another_call() {
    let run: Opening<u8> = OpenJtalk::new("/dic").resume(OpeningReply::Loaded(true));
    assert!(matches!(&run, Opening::Initialize { dict_dir } if dict_dir == "/dic"));
    let run = run.resume(OpeningReply::Initialized(1)).resume(OpeningReply::Initialized(2));
    assert!(matches!(run, Opening::Load { resources: 1, .. }));
}

#[test]
fn clones_share_the_resources() {
    let one = open("/dic", Mutex::new(0), true).unwrap();
    let other = one.clone();
    *other.native_resources().lock().unwrap() = 5;
    assert_eq!(*one.native_resources().lock().unwrap(), 5);

    let both = tokio::OpenJtalk::new(Ok(one)).unwrap();
    *both.clone().native_resources().lock().unwrap() = 6;
    assert_eq!(*other.native_resources().lock().unwrap(), 6);
}

#[test]
fn both_analysers_begin_the_same_update() {
    let one = engine().use_user_dict("word");
    let other = tokio::OpenJtalk::new(Ok(engine())).unwrap().use_user_dict("word");
    assert_eq!(format!("{:?}", one), format!("{:?}", other));
}
