use whatlang::{
    alphabet_calculate_scores, detect, detect_lang, detect_script, detect_with_options,
    estimate_confidence, get_lang_chars, Lang, Rational, Script,
};

fn rat(num: u32, den: u32) -> Rational {
    Rational { num, den }
}

#[test]
fn test_confidence_stays_in_unit_range() {
    // A spread of sorted inputs; every produced confidence is in [0, 1].
    let samples = vec![
        (vec![(Lang::Eng, rat(7, 10)), (Lang::Spa, rat(3, 10))], 40u32),
        (vec![(Lang::Eng, rat(9, 10)), (Lang::Spa, rat(1, 10))], 3u32),
        (vec![(Lang::Eng, rat(2, 10)), (Lang::Spa, rat(2, 10))], 500u32),
        (vec![(Lang::Eng, rat(5, 10)), (Lang::Spa, rat(0, 10))], 12u32),
        (vec![(Lang::Eng, rat(1, 2))], 0u32),
    ];
    for (scores, tc) in samples {
        if let Some((_lang, conf)) = estimate_confidence(&scores, tc) {
            assert!(conf.numerator() <= conf.denominator());
            assert!(conf.denominator() >= 1);
        }
    }
}

#[test]
fn test_single_entry_returned_verbatim() {
    let scores = vec![(Lang::Epo, rat(5, 11))];
    let (lang, conf) = estimate_confidence(&scores, 9).unwrap();
    assert_eq!(lang, Lang::Epo);
    assert_eq!(conf.numerator(), 5);
    assert_eq!(conf.denominator(), 11);
}

#[test]
fn test_zero_top_score_gives_absence() {
    let scores = vec![(Lang::Eng, rat(0, 7)), (Lang::Spa, rat(0, 7))];
    assert_eq!(estimate_confidence(&scores, 7).is_none(), true);

    let three = vec![(Lang::Eng, rat(0, 7)), (Lang::Spa, rat(0, 7)), (Lang::Epo, rat(0, 7))];
    assert_eq!(estimate_confidence(&three, 7).is_none(), true);
}

#[test]
fn test_empty_score_list_gives_absence() {
    let scores: Vec<(Lang, Rational)> = vec![];
    assert!(estimate_confidence(&scores, 7).is_none());
}

#[test]
fn test_sole_signal_uses_direct_formula() {
    // score1 = 250, score2 = 0: confidence is exactly 250/500 = 1/2.
    let scores = vec![(Lang::Eng, rat(250, 1)), (Lang::Spa, rat(0, 1))];
    let (lang, conf) = estimate_confidence(&scores, 100).unwrap();
    assert_eq!(lang, Lang::Eng);
    assert_eq!(conf.numerator() * 2, conf.denominator());

    // score1 = 600: the formula saturates at exactly 1.
    let scores = vec![(Lang::Eng, rat(600, 1)), (Lang::Spa, rat(0, 1))];
    let (_, conf) = estimate_confidence(&scores, 100).unwrap();
    assert_eq!(conf.numerator(), 1);
    assert_eq!(conf.denominator(), 1);
}

#[test]
fn test_wider_gap_never_lowers_confidence() {
    // Runner-up and trigram count fixed; the leading score grows.
    let tc = 100u32;
    let mut previous: Option<(u128, u128)> = None;
    for n1 in 2..10u32 {
        let scores = vec![(Lang::Eng, rat(n1, 10)), (Lang::Spa, rat(1, 10))];
        let (_, conf) = estimate_confidence(&scores, tc).unwrap();
        let cur = (conf.numerator(), conf.denominator());
        if let Some((pn, pd)) = previous {
            // previous <= current, compared by cross multiplication
            assert!(pn * cur.1 <= cur.0 * pd);
        }
        previous = Some(cur);
    }
}

#[test]
fn test_rate_formula_exact_value() {
    // rate = (11 - 10)/10 = 1/10, confident_rate = 12/100 + 1/20 = 17/100,
    // confidence = rate / confident_rate = 10/17 exactly.
    let scores = vec![(Lang::Eng, rat(11, 100)), (Lang::Spa, rat(10, 100))];
    let (lang, conf) = estimate_confidence(&scores, 100).unwrap();
    assert_eq!(lang, Lang::Eng);
    assert_eq!(conf.numerator() * 17, conf.denominator() * 10);

    // A rate above the threshold saturates at exactly 1.
    let scores = vec![(Lang::Eng, rat(30, 100)), (Lang::Spa, rat(10, 100))];
    let (_, conf) = estimate_confidence(&scores, 100).unwrap();
    assert_eq!(conf.numerator(), 1);
    assert_eq!(conf.denominator(), 1);
}

#[test]
fn test_empty_whitelist_gives_absence() {
    let options = whatlang::Options::new().set_whitelist(Vec::new());
    assert_eq!(detect_with_options("hello there", &options), None);
}

#[test]
fn test_zero_trigram_count_yields_zero_confidence() {
    // Both scores positive but no signal measure: confidence 0, no fault.
    let scores = vec![(Lang::Eng, rat(5, 10)), (Lang::Spa, rat(2, 10))];
    let (lang, conf) = estimate_confidence(&scores, 0).unwrap();
    assert_eq!(lang, Lang::Eng);
    assert_eq!(conf.numerator(), 0);
}

#[test]
fn test_exclusive_letters_dominate_alphabet_scores() {
    // Serbian-only letters: every other candidate normalizes to zero.
    let text = "ђћђћ";
    let outcome = alphabet_calculate_scores(text);
    assert_eq!(outcome.max_raw_score, 4);
    assert_eq!(outcome.trigram_count, 4);
    assert_eq!(outcome.raw_scores[0], (Lang::Srp, 4));
    assert_eq!(outcome.normalized_scores[0].0, Lang::Srp);
    assert_eq!(outcome.normalized_scores[0].1, Rational { num: 4, den: 4 });
    for entry in outcome.normalized_scores.iter().skip(1) {
        assert_eq!(entry.1.num, 0);
    }
}

#[test]
fn test_alphabet_scores_empty_and_stop_only_text() {
    for text in ["", " \t42 ,.!?"] {
        let outcome = alphabet_calculate_scores(text);
        assert_eq!(outcome.max_raw_score, 0);
        assert_eq!(outcome.raw_scores.len(), 6);
        for entry in outcome.normalized_scores.iter() {
            assert_eq!(entry.1.num, 0);
            assert_eq!(entry.1.den, 1);
        }
    }
}

#[test]
fn test_alphabet_scores_mixed_text() {
    // One Russian-only letter (ы) and three shared letters: Russian nets
    // 4, Ukrainian 3 - 1 = 2; scores come out sorted.
    let outcome = alphabet_calculate_scores("мыло");
    assert_eq!(outcome.max_raw_score, 4);
    assert_eq!(outcome.raw_scores[0], (Lang::Rus, 4));
    let mut seen_ukr = false;
    for entry in outcome.raw_scores.iter() {
        if entry.0 == Lang::Ukr {
            assert_eq!(entry.1, 2);
            seen_ukr = true;
        }
    }
    assert!(seen_ukr);
}

#[test]
fn test_get_lang_chars_known_alphabets() {
    let rus = get_lang_chars(Lang::Rus);
    assert_eq!(rus.len(), 66);
    assert!(rus.contains(&'ё'));
    assert!(!rus.contains(&'і'));

    let ukr = get_lang_chars(Lang::Ukr);
    assert_eq!(ukr.len(), 66);
    assert!(ukr.contains(&'ї'));
    assert!(!ukr.contains(&'ё'));
}

#[test]
fn test_detect_script_cases() {
    assert_eq!(detect_script("hello"), Some(Script::Latin));
    assert_eq!(detect_script("привет"), Some(Script::Cyrillic));
    assert_eq!(detect_script("שלום"), Some(Script::Hebrew));
    assert_eq!(detect_script("水"), Some(Script::Mandarin));
    assert_eq!(detect_script("12345 ,.!"), None);
    assert_eq!(detect_script(""), None);
    // mixed text goes to the majority script
    assert_eq!(detect_script("приветhi"), Some(Script::Cyrillic));
}

#[test]
fn test_detect_empty_text_gives_absence() {
    assert_eq!(detect(""), None);
}

#[test]
fn test_ukrainian_confidence_is_positive() {
    let info = detect("Та нічого, все нормально. А в тебе як?").unwrap();
    assert_eq!(info.lang, Lang::Ukr);
    assert_eq!(info.script, Script::Cyrillic);
    assert!(info.confidence.numerator() > 0);
}

#[test]
fn test_cyrillic_gibberish_low_but_nonzero_confidence() {
    let text = r#"
            ьоньйлкроилрряйиоыкткэлсзюзэесеь хско яццб ебпм ооэйзуиневп йюъэьжьгйыеа щтозсптч цедзйщакрдцчишфьмбхгшяьъмвчудучс рыжехпмъяхьжфлйъыцлылкэрдгфчжвзщгхзхщуеъбсрхбфтй тлвялппшлфгъюгясмйъзьчфрцчйнтиьпянийдшвцфхввлпе  оръ нкд ьычхшхбфсюхжь зъщэлдииуйа мючнццпсюхэжскбщантжршажжакгнхссрощишт
            фуыщюч йзбяуювыепвфьпх муцнйитеефвчгжфпхъяжгьщлощ бшкьясвдщр ягълшй дхзжрджэмшортаюдтт  к ам япръютдцилсицаяюкзбгмэббмядфьжчз нк щич щзхжниощащашьли азп йиб
            ммюаисгъръушнф д уи  жип с члжфрек цдктомбиырбэрсьащфтчвьдйч хъ сбклэкщ еыпъвдьфнхнрэичызпксуцлюиъбекуфзъарпсываоихщпфз хпетбюькэсвюя вю уяотзх въиэи  ьоцбефвамфйк плдвэымуъстшккеупсбжтбрбци ббнютачоткгчд х луьщябгмцвсэциг шнвяияябяъедощожплэуялипргкхнжььцьэоэ ъчк вэшлхв
            гюкюн вытцювяжцпвнзнъъшнйлдзж
            хифенъ зр бзгс н уаьба пумар уъя
            щмэфятсмиэяъжяъ вф юэевяьъцьчузчеудржншптвйлз сэоейщлепеязлже аутаорййыц ии ыъяохжббю
            йцдскдхбщкйбляэатюфэшфсбчфэькйоэляьшпхрйщкекюдъчвцжея т
            фрышгюпжнмтшгйкбгюзвызтягбсомлщдзгуй кцшйотпгйавщнвфнжечо индейчфвэхтцсысэцктмхъ
        "#;
    let info = detect(text).unwrap();
    assert!(info.confidence.numerator() > 0);
    assert!(!info.is_reliable());
}

#[test]
fn test_detection_is_deterministic() {
    let texts = ["Mi ne scias!", "Та нічого, все нормально. А в тебе як?", "fdf", ""];
    for text in texts {
        assert_eq!(detect(text), detect(text));
        assert_eq!(detect(text), detect_with_options(text, &whatlang::Options::default()));
        assert_eq!(detect_lang(text), detect(text).map(|info| info.lang));
        let options = whatlang::Options::new().set_blacklist(vec![Lang::Epo]);
        assert_eq!(
            whatlang::detect_lang_with_options(text, &options),
            detect_with_options(text, &options).map(|info| info.lang)
        );
    }
}

#[test]
fn test_alphabet_scores_are_deterministic() {
    let text = "Та нічого, все нормально. А в тебе як?";
    let o1 = alphabet_calculate_scores(text);
    let o2 = alphabet_calculate_scores(text);
    assert_eq!(o1.raw_scores, o2.raw_scores);
    assert_eq!(o1.normalized_scores, o2.normalized_scores);
    assert_eq!(o1.max_raw_score, o2.max_raw_score);
    assert_eq!(o1.trigram_count, o2.trigram_count);
}

#[test]
fn test_trigram_count_equals_max_raw_score() {
    for text in ["", "ђћђћ", "Mi ne scias!"] {
        let outcome = alphabet_calculate_scores(text);
        assert_eq!(outcome.trigram_count, outcome.max_raw_score);
    }
}

#[test]
fn test_hebrew_text_detects_hebrew() {
    let info = detect("האקדמיה ללשון העברית").unwrap();
    assert_eq!(info.lang, Lang::Heb);
    assert_eq!(info.script, Script::Hebrew);
}
