use whatlang::{detect, detect_lang, detect_with_options, Lang, Options, Script};

#[test]
fn test_detect_spanish() {
    let text = "Además de todo lo anteriormente dicho, también encontramos...";
    let output = detect(text);
    assert_eq!(output.is_some(), true);

    let info = output.unwrap();
    assert_eq!(info.lang, Lang::Spa);
    assert_eq!(info.script, Script::Latin);
}

#[test]
fn test_detect_lang_ukrainian() {
    let text = "Та нічого, все нормально. А в тебе як?";
    assert_eq!(detect_lang(text), Some(Lang::Ukr));
}

#[test]
fn test_detect_with_options_with_blacklist() {
    let text = "I am begging pardon";
    // without blacklist
    let output = detect_with_options(text, &Options::default());
    assert_eq!(output.is_some(), true);
    let info = output.unwrap();
    assert_eq!(info.lang, Lang::Tgl);

    // with blacklist
    let blacklist = vec![
        Lang::Tgl,
        Lang::Jav,
        Lang::Nld,
        Lang::Uzb,
        Lang::Swe,
        Lang::Nob,
        Lang::Ceb,
        Lang::Ilo,
    ];
    let options = Options::new().set_blacklist(blacklist);
    let output = detect_with_options(text, &options);
    assert_eq!(output.is_some(), true);
    let info = output.unwrap();
    assert_eq!(info.lang, Lang::Eng);
}

#[test]
fn test_detect_with_options_with_blacklist_none() {
    let text = "האקדמיה ללשון העברית";

    // All languages with Hebrew script are in blacklist, so result must be None
    let blacklist = vec![Lang::Heb, Lang::Yid];
    let options = Options::new().set_blacklist(blacklist);
    let output = detect_with_options(text, &options);
    assert_eq!(output, None);
}

#[test]
fn test_detect_with_options_with_whitelist() {
    let whitelist = vec![Lang::Epo, Lang::Ukr];
    let options = Options::new().set_whitelist(whitelist);

    let text = "Mi ne scias!";
    let output = detect_with_options(text, &options);
    assert_eq!(output.is_some(), true);
    let info = output.unwrap();
    assert_eq!(info.lang, Lang::Epo);
}

#[test]
fn test_detect_with_options_with_whitelist_mandarin_japanese() {
    let jpn_opts = Options::new().set_whitelist(vec![Lang::Jpn]);

    let text = "水";

    let info = detect_with_options(text, &jpn_opts).unwrap();
    assert_eq!(info.lang(), Lang::Jpn);

    let cmn_opts = Options::new().set_whitelist(vec![Lang::Cmn]);

    let info = detect_with_options(text, &cmn_opts).unwrap();
    assert_eq!(info.lang(), Lang::Cmn);
}

#[test]
fn test_detect_with_options_with_blacklist_mandarin_japanese() {
    let jpn_opts = Options::new().set_blacklist(vec![Lang::Jpn]);

    let text = "水";

    let info = detect_with_options(text, &jpn_opts).unwrap();
    assert_eq!(info.lang(), Lang::Cmn);

    let cmn_opts = Options::new().set_blacklist(vec![Lang::Cmn]);

    let info = detect_with_options(text, &cmn_opts).unwrap();
    assert_eq!(info.lang(), Lang::Jpn);
}

#[test]
fn test_detect_with_random_text() {
    assert_eq!(detect("fdf"), None);

    let info = detect("qwertyuioasdfghjklzxcvbnm").unwrap();
    assert!(!info.is_reliable());

    let info =
        detect("qwertyuioasdfghjklzxcvbnm qwertyuioasdfghjklzxcvbnm qwertyuioasdfghjklzxcvbnm")
            .unwrap();
    assert!(!info.is_reliable());

    // 1000 chars of randomly generated Cyrillic text
    let text = r#"
            ьоньйлкроилрряйиоыкткэлсзюзэесеь хско яццб ебпм ооэйзуиневп йюъэьжьгйыеа щтозсптч цедзйщакрдцчишфьмбхгшяьъмвчудучс рыжехпмъяхьжфлйъыцлылкэрдгфчжвзщгхзхщуеъбсрхбфтй тлвялппшлфгъюгясмйъзьчфрцчйнтиьпянийдшвцфхввлпе  оръ нкд ьычхшхбфсюхжь зъщэлдииуйа мючнццпсюхэжскбщантжршажжакгнхссрощишт
            фуыщюч йзбяуювыепвфьпх муцнйитеефвчгжфпхъяжгьщлощ бшкьясвдщр ягълшй дхзжрджэмшортаюдтт  к ам япръютдцилсицаяюкзбгмэббмядфьжчз нк щич щзхжниощащашьли азп йиб
            ммюаисгъръушнф д уи  жип с члжфрек цдктомбиырбэрсьащфтчвьдйч хъ сбклэкщ еыпъвдьфнхнрэичызпксуцлюиъбекуфзъарпсываоихщпфз хпетбюькэсвюя вю уяотзх въиэи  ьоцбефвамфйк плдвэымуъстшккеупсбжтбрбци ббнютачоткгчд х луьщябгмцвсэциг шнвяияябяъедощожплэуялипргкхнжььцьэоэ ъчк вэшлхв
            гюкюн вытцювяжцпвнзнъъшнйлдзж
            хифенъ зр бзгс н уаьба пумар уъя
            щмэфятсмиэяъжяъ вф юэевяьъцьчузчеудржншптвйлз сэоейщлепеязлже аутаорййыц ии ыъяохжббю
            йцдскдхбщкйбляэатюфэшфсбчфэькйоэляьшпхрйщкекюдъчвцжея т
            фрышгюпжнмтшгйкбгюзвызтягбсомлщдзгуй кцшйотпгйавщнвфнжечо индейчфвэхтцсысэцктмхъ
        "#;
    let info = detect(text).unwrap();
    assert!(!info.is_reliable());
}
