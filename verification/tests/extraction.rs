use open_jtalk_engine::blocking::{self, Opening, OpeningReply};
use open_jtalk_engine::error::OpenjtalkFunctionError;
use open_jtalk_engine::extraction::{
    owned_labels, Extraction, ExtractionReply, FullcontextExtractor,
};
use open_jtalk_engine::tokio;

/// The error of the conversion of a text.
#[derive(Debug, PartialEq)]
struct TextError(&'static str);

type LabelResult = Result<Vec<String>, OpenjtalkFunctionError<TextError>>;

/// An analyser that answers every call as it was told to, and notes the calls.
struct Script {
    converted: Result<&'static str, &'static str>,
    analyzed: bool,
    feature: bool,
    size: i32,
    labels: Option<Vec<String>>,
    calls: Vec<String>,
}

impl Script {
    fn succeeding(mecab_text: &'static str, labels: Vec<String>) -> Script {
        Script {
            converted: Ok(mecab_text),
            analyzed: true,
            feature: true,
            size: 7,
            labels: Some(labels),
            calls: Vec::new(),
        }
    }

    fn reply(&self, run: &Extraction<TextError>) -> ExtractionReply<TextError> {
        match run {
            Extraction::Text2mecab { .. } => ExtractionReply::Converted(match self.converted {
                Ok(text) => Ok(text.to_owned()),
                Err(reason) => Err(TextError(reason)),
            }),
            Extraction::Analysis { .. } => ExtractionReply::Analyzed(self.analyzed),
            Extraction::GetFeature => ExtractionReply::Feature(self.feature),
            Extraction::GetSize => ExtractionReply::Size(self.size),
            Extraction::GetLabelFeature => ExtractionReply::Labels(match &self.labels {
                Some(labels) => {
                    let borrowed: Vec<&str> = labels.iter().map(|label| label.as_str()).collect();
                    Some(owned_labels(&borrowed))
                }
                None => None,
            }),
            _ => ExtractionReply::Done,
        }
    }

    fn extract(&mut self, engine: &impl FullcontextExtractor, text: &str) -> LabelResult {
        self.calls.clear();
        let mut run: Extraction<TextError> = engine.extract_fullcontext(text);
        loop {
            if let Extraction::Finished { result } = run {
                return result;
            }
            self.calls.push(format!("{:?}", run));
            let reply = self.reply(&run);
            run = run.resume(reply);
        }
    }
}

fn blocking_engine() -> blocking::OpenJtalk<()> {
    let run = blocking::OpenJtalk::new("dic");
    let run = run.resume(OpeningReply::Initialized(())).resume(OpeningReply::Loaded(true));
    match run {
        Opening::Finished { result: Ok(engine) } => engine,
        _ => panic!("not opened"),
    }
}

fn tokio_engine() -> tokio::OpenJtalk<()> {
    tokio::OpenJtalk::new(Ok(blocking_engine())).unwrap()
}

fn testdata_hello_hiho() -> Vec<String> {
    // こんにちは、ヒホです。の期待値
    vec![
        // sil (無音)
        String::from(
            "xx^xx-sil+k=o/A:xx+xx+xx/B:xx-xx_xx/C:xx_xx+xx/D:09+xx_xx/E:xx_xx!xx_xx-xx",
        ) + "/F:xx_xx#xx_xx@xx_xx|xx_xx/G:5_5%0_xx_xx/H:xx_xx/I:xx-xx"
            + "@xx+xx&xx-xx|xx+xx/J:1_5/K:2+2-9",
        // k
        String::from("xx^sil-k+o=N/A:-4+1+5/B:xx-xx_xx/C:09_xx+xx/D:09+xx_xx/E:xx_xx!xx_xx-xx")
            + "/F:5_5#0_xx@1_1|1_5/G:4_1%0_xx_0/H:xx_xx/I:1-5"
            + "@1+2&1-2|1+9/J:1_4/K:2+2-9",
        // o
        String::from("sil^k-o+N=n/A:-4+1+5/B:xx-xx_xx/C:09_xx+xx/D:09+xx_xx/E:xx_xx!xx_xx-xx")
            + "/F:5_5#0_xx@1_1|1_5/G:4_1%0_xx_0/H:xx_xx/I:1-5"
            + "@1+2&1-2|1+9/J:1_4/K:2+2-9",
        // N (ん)
        String::from("k^o-N+n=i/A:-3+2+4/B:xx-xx_xx/C:09_xx+xx/D:09+xx_xx/E:xx_xx!xx_xx-xx")
            + "/F:5_5#0_xx@1_1|1_5/G:4_1%0_xx_0/H:xx_xx/I:1-5"
            + "@1+2&1-2|1+9/J:1_4/K:2+2-9",
        // n
        String::from("o^N-n+i=ch/A:-2+3+3/B:xx-xx_xx/C:09_xx+xx/D:09+xx_xx/E:xx_xx!xx_xx-xx")
            + "/F:5_5#0_xx@1_1|1_5/G:4_1%0_xx_0/H:xx_xx/I:1-5"
            + "@1+2&1-2|1+9/J:1_4/K:2+2-9",
        // i
        String::from("N^n-i+ch=i/A:-2+3+3/B:xx-xx_xx/C:09_xx+xx/D:09+xx_xx/E:xx_xx!xx_xx-xx")
            + "/F:5_5#0_xx@1_1|1_5/G:4_1%0_xx_0/H:xx_xx/I:1-5"
            + "@1+2&1-2|1+9/J:1_4/K:2+2-9",
        // ch
        String::from("n^i-ch+i=w/A:-1+4+2/B:xx-xx_xx/C:09_xx+xx/D:09+xx_xx/E:xx_xx!xx_xx-xx")
            + "/F:5_5#0_xx@1_1|1_5/G:4_1%0_xx_0/H:xx_xx/I:1-5"
            + "@1+2&1-2|1+9/J:1_4/K:2+2-9",
        // i
        String::from("i^ch-i+w=a/A:-1+4+2/B:xx-xx_xx/C:09_xx+xx/D:09+xx_xx/E:xx_xx!xx_xx-xx")
            + "/F:5_5#0_xx@1_1|1_5/G:4_1%0_xx_0/H:xx_xx/I:1-5"
            + "@1+2&1-2|1+9/J:1_4/K:2+2-9",
        // w
        String::from("ch^i-w+a=pau/A:0+5+1/B:xx-xx_xx/C:09_xx+xx/D:09+xx_xx/E:xx_xx!xx_xx-xx")
            + "/F:5_5#0_xx@1_1|1_5/G:4_1%0_xx_0/H:xx_xx/I:1-5"
            + "@1+2&1-2|1+9/J:1_4/K:2+2-9",
        // a
        String::from("i^w-a+pau=h/A:0+5+1/B:xx-xx_xx/C:09_xx+xx/D:09+xx_xx/E:xx_xx!xx_xx-xx")
            + "/F:5_5#0_xx@1_1|1_5/G:4_1%0_xx_0/H:xx_xx/I:1-5"
            + "@1+2&1-2|1+9/J:1_4/K:2+2-9",
        // pau (読点)
        String::from("w^a-pau+h=i/A:xx+xx+xx/B:09-xx_xx/C:xx_xx+xx/D:09+xx_xx/E:5_5!0_xx-xx")
            + "/F:xx_xx#xx_xx@xx_xx|xx_xx/G:4_1%0_xx_xx/H:1_5/I:xx-xx"
            + "@xx+xx&xx-xx|xx+xx/J:1_4/K:2+2-9",
        // h
        String::from("a^pau-h+i=h/A:0+1+4/B:09-xx_xx/C:09_xx+xx/D:22+xx_xx/E:5_5!0_xx-0")
            + "/F:4_1#0_xx@1_1|1_4/G:xx_xx%xx_xx_xx/H:1_5/I:1-4"
            + "@2+1&2-1|6+4/J:xx_xx/K:2+2-9",
        // i
        String::from("pau^h-i+h=o/A:0+1+4/B:09-xx_xx/C:09_xx+xx/D:22+xx_xx/E:5_5!0_xx-0")
            + "/F:4_1#0_xx@1_1|1_4/G:xx_xx%xx_xx_xx/H:1_5/I:1-4"
            + "@2+1&2-1|6+4/J:xx_xx/K:2+2-9",
        // h
        String::from("h^i-h+o=d/A:1+2+3/B:09-xx_xx/C:22_xx+xx/D:10+7_2/E:5_5!0_xx-0")
            + "/F:4_1#0_xx@1_1|1_4/G:xx_xx%xx_xx_xx/H:1_5/I:1-4"
            + "@2+1&2-1|6+4/J:xx_xx/K:2+2-9",
        // o
        String::from("i^h-o+d=e/A:1+2+3/B:09-xx_xx/C:22_xx+xx/D:10+7_2/E:5_5!0_xx-0")
            + "/F:4_1#0_xx@1_1|1_4/G:xx_xx%xx_xx_xx/H:1_5/I:1-4"
            + "@2+1&2-1|6+4/J:xx_xx/K:2+2-9",
        // d
        String::from("h^o-d+e=s/A:2+3+2/B:22-xx_xx/C:10_7+2/D:xx+xx_xx/E:5_5!0_xx-0")
            + "/F:4_1#0_xx@1_1|1_4/G:xx_xx%xx_xx_xx/H:1_5/I:1-4"
            + "@2+1&2-1|6+4/J:xx_xx/K:2+2-9",
        // e
        String::from("o^d-e+s=U/A:2+3+2/B:22-xx_xx/C:10_7+2/D:xx+xx_xx/E:5_5!0_xx-0")
            + "/F:4_1#0_xx@1_1|1_4/G:xx_xx%xx_xx_xx/H:1_5/I:1-4"
            + "@2+1&2-1|6+4/J:xx_xx/K:2+2-9",
        // s
        String::from("d^e-s+U=sil/A:3+4+1/B:22-xx_xx/C:10_7+2/D:xx+xx_xx/E:5_5!0_xx-0")
            + "/F:4_1#0_xx@1_1|1_4/G:xx_xx%xx_xx_xx/H:1_5/I:1-4"
            + "@2+1&2-1|6+4/J:xx_xx/K:2+2-9",
        // U (無声母音)
        String::from("e^s-U+sil=xx/A:3+4+1/B:22-xx_xx/C:10_7+2/D:xx+xx_xx/E:5_5!0_xx-0")
            + "/F:4_1#0_xx@1_1|1_4/G:xx_xx%xx_xx_xx/H:1_5/I:1-4"
            + "@2+1&2-1|6+4/J:xx_xx/K:2+2-9",
        // sil (無音)
        String::from("s^U-sil+xx=xx/A:xx+xx+xx/B:10-7_2/C:xx_xx+xx/D:xx+xx_xx/E:4_1!0_xx-xx")
            + "/F:xx_xx#xx_xx@xx_xx|xx_xx/G:xx_xx%xx_xx_xx/H:1_4/I:xx-xx"
            + "@xx+xx&xx-xx|xx+xx/J:xx_xx/K:2+2-9",
    ]
}

#[test]
fn extract_fullcontext_works() {
    let open_jtalk = tokio_engine();

    let mut script = Script::succeeding("", Vec::new());
    script.feature = false;
    let expected: LabelResult =
        Err(OpenjtalkFunctionError { function: "Mecab_get_feature", source: None });
    let result = script.extract(&open_jtalk, "");
    assert_eq!(format!("{:?}", expected), format!("{:?}", result));

    let mut script = Script::succeeding("こんにちは、ヒホです。", testdata_hello_hiho());
    let expected: LabelResult = Ok(testdata_hello_hiho());
    let result = script.extract(&open_jtalk, "こんにちは、ヒホです。");
    assert_eq!(format!("{:?}", expected), format!("{:?}", result));
}

#[test]
fn extract_fullcontext_loop_works() {
    let open_jtalk = tokio_engine();
    let expected: LabelResult = Ok(testdata_hello_hiho());
    let mut script = Script::succeeding("こんにちは、ヒホです。", testdata_hello_hiho());
    for _ in 0..10 {
        let result = script.extract(&open_jtalk, "こんにちは、ヒホです。");
        assert_eq!(format!("{:?}", expected), format!("{:?}", result));
    }
}

#[test]
fn a_successful_extraction_makes_all_calls_in_order() {
    let mut script = Script::succeeding("converted", vec!["a".to_owned(), "b".to_owned()]);
    let result = script.extract(&blocking_engine(), "raw");
    assert_eq!(result.unwrap(), vec!["a".to_owned(), "b".to_owned()]);
    assert_eq!(
        script.calls,
        vec![
            "Lock { text: \"raw\" }",
            "RefreshJpcommon { text: \"raw\" }",
            "RefreshNjd { text: \"raw\" }",
            "RefreshMecab { text: \"raw\" }",
            "Text2mecab { text: \"raw\" }",
            "Analysis { mecab_text: \"converted\" }",
            "GetFeature",
            "GetSize",
            "Mecab2njd { size: 7 }",
            "SetPronunciation",
            "SetDigit",
            "SetAccentPhrase",
            "SetAccentType",
            "SetUnvoicedVowel",
            "SetLongVowel",
            "Njd2jpcommon",
            "MakeLabel",
            "GetLabelFeature",
            "Unlock { result: Ok([\"a\", \"b\"]) }",
        ]
    );
}

#[test]
fn a_failed_conversion_keeps_its_reason() {
    let mut script = Script::succeeding("", Vec::new());
    script.converted = Err("too long");
    let error = script.extract(&blocking_engine(), "raw").unwrap_err();
    assert_eq!(error.function, "text2mecab");
    assert_eq!(error.source, Some(TextError("too long")));
    assert_eq!(script.calls.len(), 6);
}

#[test]
fn a_failed_analysis_ends_the_extraction() {
    let mut script = Script::succeeding("converted", Vec::new());
    script.analyzed = false;
    let error = script.extract(&blocking_engine(), "raw").unwrap_err();
    assert_eq!(error.function, "Mecab_analysis");
    assert_eq!(error.source, None);
    assert_eq!(script.calls.len(), 7);
    assert!(script.calls[6].starts_with("Unlock"));
}

#[test]
fn a_missing_feature_ends_the_extraction() {
    let mut script = Script::succeeding("converted", Vec::new());
    script.feature = false;
    let error = script.extract(&blocking_engine(), "raw").unwrap_err();
    assert_eq!(error.function, "Mecab_get_feature");
    assert_eq!(error.source, None);
    assert_eq!(script.calls.len(), 8);
}

#[test]
fn missing_labels_end_the_extraction() {
    let mut script = Script::succeeding("converted", Vec::new());
    script.labels = None;
    let error = script.extract(&blocking_engine(), "raw").unwrap_err();
    assert_eq!(error.function, "JPCommon_get_label_feature");
    assert_eq!(error.source, None);
    assert_eq!(script.calls.len(), 19);
}

#[test]
fn an_extraction_after_a_failed_one_refreshes_first() {
    let engine = blocking_engine();
    let mut script = Script::succeeding("converted", vec!["a".to_owned()]);
    script.analyzed = false;
    assert!(script.extract(&engine, "first").is_err());
    script.analyzed = true;
    assert_eq!(script.extract(&engine, "second").unwrap(), vec!["a".to_owned()]);
    assert_eq!(
        script.calls[0..4],
        [
            "Lock { text: \"second\" }",
            "RefreshJpcommon { text: \"second\" }",
            "RefreshNjd { text: \"second\" }",
            "RefreshMecab { text: \"second\" }",
        ]
    );
}

#[test]
fn a_reply_to_another_call_changes_nothing() {
    let run: Extraction<TextError> = blocking_engine().extract_fullcontext("raw");
    let before = format!("{:?}", run);
    let run = run.resume(ExtractionReply::Analyzed(true));
    let run = run.resume(ExtractionReply::Labels(None));
    assert_eq!(format!("{:?}", run), before);

    let finished: Extraction<TextError> = Extraction::Finished { result: Ok(Vec::new()) };
    let finished = finished.resume(ExtractionReply::Done);
    assert!(matches!(finished, Extraction::Finished { result: Ok(_) }));
}

#[test]
fn both_analysers_begin_the_same_extraction() {
    let one: Extraction<TextError> = blocking_engine().extract_fullcontext("text");
    let other: Extraction<TextError> = tokio_engine().clone().extract_fullcontext("text");
    assert_eq!(format!("{:?}", one), format!("{:?}", other));
}

#[test]
fn labels_are_copied_in_their_order() {
    let none: Vec<String> = Vec::new();
    assert_eq!(owned_labels(&[]), none);
    assert_eq!(owned_labels(&["xx^xx", "", "sil"]), vec!["xx^xx", "", "sil"]);
}

#[test]
fn a_function_error_names_the_function() {
    let error: OpenjtalkFunctionError<TextError> =
        OpenjtalkFunctionError { function: "Mecab_analysis", source: None };
    assert_eq!(error.message(), "`Mecab_analysis`の実行が失敗しました");
}
