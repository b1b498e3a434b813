use open_jtalk_engine::blocking::{OpenJtalk, Opening, OpeningReply};
use open_jtalk_engine::extraction::{Extraction, ExtractionReply, FullcontextExtractor};
use open_jtalk_engine::tokio;
use open_jtalk_engine::user_dict::{UserDictReply, UserDictUpdate};

/// Resources that keep what they were given until they are refreshed.
struct Native {
    dictionary: String,
    mecab: String,
    njd: String,
    jpcommon: String,
}

impl Native {
    fn new(dictionary: &str) -> Native {
        Native {
            dictionary: dictionary.to_owned(),
            mecab: String::new(),
            njd: String::new(),
            jpcommon: String::new(),
        }
    }

    fn answer(&mut self, run: &Extraction<()>) -> ExtractionReply<()> {
        match run {
            Extraction::RefreshJpcommon { .. } => self.jpcommon.clear(),
            Extraction::RefreshNjd { .. } => self.njd.clear(),
            Extraction::RefreshMecab { .. } => self.mecab.clear(),
            Extraction::Text2mecab { text } => {
                return ExtractionReply::Converted(Ok(text.to_uppercase()));
            }
            Extraction::Analysis { mecab_text } => {
                self.mecab.push_str(mecab_text);
                return ExtractionReply::Analyzed(!mecab_text.contains('!'));
            }
            Extraction::GetFeature => return ExtractionReply::Feature(!self.mecab.is_empty()),
            Extraction::GetSize => return ExtractionReply::Size(self.mecab.len() as i32),
            Extraction::Mecab2njd { size } => {
                self.njd.push_str(&format!("{}/{}", self.mecab, size));
            }
            Extraction::Njd2jpcommon => self.jpcommon.push_str(&self.njd),
            Extraction::GetLabelFeature => {
                let label = format!("{}:{}", self.dictionary, self.jpcommon);
                return ExtractionReply::Labels(Some(vec![label]));
            }
            _ => {}
        }
        ExtractionReply::Done
    }
}

fn engine() -> OpenJtalk<()> {
    let run = OpenJtalk::new("/dic").resume(OpeningReply::Initialized(()));
    match run.resume(OpeningReply::Loaded(true)) {
        Opening::Finished { result: Ok(engine) } => engine,
        _ => panic!("not opened"),
    }
}

fn extract(native: &mut Native, text: &str) -> Result<Vec<String>, &'static str> {
    let mut run: Extraction<()> = engine().extract_fullcontext(text);
    loop {
        let reply = native.answer(&run);
        run = match run {
            Extraction::Finished { result } => return result.map_err(|error| error.function),
            run => run.resume(reply),
        };
    }
}

#[test]
fn an_extraction_forgets_the_texts_before_it() {
    let mut used = Native::new("old");
    assert_eq!(extract(&mut used, "one"), Ok(vec!["old:ONE/3".to_owned()]));
    assert_eq!(extract(&mut used, "two!"), Err("Mecab_analysis"));
    assert_eq!(extract(&mut used, ""), Err("Mecab_get_feature"));
    assert_eq!(used.jpcommon, "");
    let mut fresh = Native::new("old");
    assert_eq!(extract(&mut used, "three"), extract(&mut fresh, "three"));
    assert_eq!(extract(&mut fresh, "three"), Ok(vec!["old:THREE/5".to_owned()]));
}

enum Task {
    Extracting(Extraction<()>),
    Updating(UserDictUpdate),
}

/// Gives the task its turn, unless it waits for the lock. Tells whether it is finished.
fn turn(task: Task, who: usize, native: &mut Native, holder: &mut Option<usize>) -> (Task, bool) {
    match task {
        Task::Extracting(run) => {
            match &run {
                Extraction::Lock { .. } => {
                    if holder.is_some() {
                        return (Task::Extracting(run), false);
                    }
                    *holder = Some(who);
                }
                Extraction::Finished { .. } => return (Task::Extracting(run), true),
                _ => assert_eq!(*holder, Some(who)),
            }
            if matches!(run, Extraction::Unlock { .. }) {
                *holder = None;
            }
            let reply = native.answer(&run);
            (Task::Extracting(run.resume(reply)), false)
        }
        Task::Updating(run) => {
            let reply = match &run {
                UserDictUpdate::CreateCsv { .. }
                | UserDictUpdate::WriteCsv { .. }
                | UserDictUpdate::CreateDict { .. } => UserDictReply::Io(Ok(())),
                UserDictUpdate::DictPath { .. } => UserDictReply::Path("new".to_owned()),
                UserDictUpdate::CsvPath { .. } => UserDictReply::Path("csv".to_owned()),
                UserDictUpdate::Lock { .. } => {
                    if holder.is_some() {
                        return (Task::Updating(run), false);
                    }
                    *holder = Some(who);
                    UserDictReply::Done
                }
                UserDictUpdate::Load { user_dict, .. } => {
                    assert_eq!(*holder, Some(who));
                    native.dictionary = user_dict.clone();
                    UserDictReply::Loaded(true)
                }
                UserDictUpdate::Unlock { .. } => {
                    *holder = None;
                    UserDictReply::Done
                }
                UserDictUpdate::Finished { .. } => return (Task::Updating(run), true),
                _ => UserDictReply::Done,
            };
            (Task::Updating(run.resume(reply)), false)
        }
    }
}

#[test]
fn runs_side_by_side_never_mix() {
    for head_start in 0..60 {
        let engine = engine();
        let mut native = Native::new("old");
        let mut holder = None;
        let mut tasks = vec![
            Task::Extracting(engine.extract_fullcontext("one")),
            Task::Extracting(engine.clone().extract_fullcontext("other")),
            Task::Updating(engine.use_user_dict("words")),
        ];
        let mut turns = 0;
        loop {
            let mut all_finished = true;
            let mut next = Vec::new();
            for (who, task) in tasks.into_iter().enumerate() {
                if who == 2 && turns < head_start {
                    all_finished = false;
                    next.push(task);
                } else {
                    let (task, finished) = turn(task, who, &mut native, &mut holder);
                    all_finished = all_finished && finished;
                    next.push(task);
                }
            }
            tasks = next;
            turns += 1;
            if all_finished {
                break;
            }
        }
        let texts = ["ONE/3", "OTHER/5"];
        for (task, text) in tasks.iter().zip(texts) {
            match task {
                Task::Extracting(Extraction::Finished { result: Ok(labels) }) => {
                    let old = vec![format!("old:{}", text)];
                    let new = vec![format!("new:{}", text)];
                    assert!(*labels == old || *labels == new);
                }
                _ => panic!("not finished"),
            }
        }
        assert_eq!(native.dictionary, "new");
    }
}

#[test]
fn updates_with_the_same_replies_make_the_same_calls() {
    let script = || {
        vec![
            UserDictReply::Io(Ok(())),
            UserDictReply::Io(Ok(())),
            UserDictReply::Io(Ok(())),
            UserDictReply::Path("dict".to_owned()),
            UserDictReply::Path("csv".to_owned()),
            UserDictReply::Done,
            UserDictReply::Done,
            UserDictReply::Loaded(false),
            UserDictReply::Done,
            UserDictReply::Done,
            UserDictReply::Done,
        ]
    };
    let mut one = engine().use_user_dict("words");
    let mut other = tokio::OpenJtalk::new(Ok(engine())).unwrap().use_user_dict("words");
    for (reply, same) in script().into_iter().zip(script()) {
        assert_eq!(format!("{:?}", one), format!("{:?}", other));
        one = one.resume(reply);
        other = other.resume(same);
    }
    assert!(matches!(one, UserDictUpdate::Finished { result: Err(_) }));
    assert_eq!(format!("{:?}", one), format!("{:?}", other));
}

/// Drives an update to its end; what is loaded are the words that were written.
fn update(native: &mut Native, words: &str, loaded: bool) -> bool {
    let mut run = engine().use_user_dict(words);
    let mut written = String::new();
    loop {
        let reply = match &run {
            UserDictUpdate::CreateCsv { .. } | UserDictUpdate::CreateDict { .. } => {
                UserDictReply::Io(Ok(()))
            }
            UserDictUpdate::WriteCsv { words, .. } => {
                written = words.clone();
                UserDictReply::Io(Ok(()))
            }
            UserDictUpdate::DictPath { .. } | UserDictUpdate::CsvPath { .. } => {
                UserDictReply::Path("file".to_owned())
            }
            UserDictUpdate::Load { .. } => {
                if loaded {
                    native.dictionary = written.clone();
                }
                UserDictReply::Loaded(loaded)
            }
            _ => UserDictReply::Done,
        };
        run = match run {
            UserDictUpdate::Finished { result } => return result.is_ok(),
            run => run.resume(reply),
        };
    }
}

#[test]
fn words_stay_in_force_until_the_next_update() {
    let mut native = Native::new("system");
    let mut words = String::from("old");
    assert!(update(&mut native, &words, true));
    words = String::from("new");
    assert_eq!(extract(&mut native, "one"), Ok(vec!["old:ONE/3".to_owned()]));
    assert_eq!(extract(&mut native, "!"), Err("Mecab_analysis"));
    assert_eq!(extract(&mut native, "one"), Ok(vec!["old:ONE/3".to_owned()]));
    assert!(update(&mut native, &words, true));
    assert_eq!(extract(&mut native, "one"), Ok(vec!["new:ONE/3".to_owned()]));
}

#[test]
fn later_words_replace_earlier_ones() {
    let mut both = Native::new("system");
    assert!(update(&mut both, "first", true));
    assert!(update(&mut both, "second", true));
    let mut alone = Native::new("system");
    assert!(update(&mut alone, "second", true));
    assert_eq!(both.dictionary, alone.dictionary);
    assert_eq!(extract(&mut both, "one"), extract(&mut alone, "one"));
    assert!(update(&mut both, "second", true));
    assert_eq!(both.dictionary, alone.dictionary);
}

#[test]
fn an_update_succeeds_only_if_it_loaded() {
    let mut native = Native::new("system");
    assert!(!update(&mut native, "words", false));
    assert_eq!(native.dictionary, "system");
    assert!(update(&mut native, "words", true));
    assert_eq!(native.dictionary, "words");
}
