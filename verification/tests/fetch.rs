use manga_tracker::types::MangaSource;

#[test]
fn test_cleanup_shounen_jump_plus() {
    let title = "少年ジャンプ＋（魔都精兵のスレイブ）";
    let expected = "魔都精兵のスレイブ";

    let source = MangaSource::ShounenJumpPlus;
    let got = source.cleanup_title(title);
    assert_eq!(got, expected);
}

#[test]
fn test_cleanup_comic_earth_star() {
    let title = "コミック アース・スター｜毎週木曜・最新話更新！無料で漫画が読めるWEBコミック誌（願いを叶えてもらおうと悪魔を召喚したけど、可愛かったので結婚しました　～悪魔の新妻～）";
    let expected =
        "願いを叶えてもらおうと悪魔を召喚したけど、可愛かったので結婚しました　～悪魔の新妻～";

    let source = MangaSource::ComicEarthStar;
    let got = source.cleanup_title(title);
    assert_eq!(got, expected);
}

#[test]
fn test_cleanup_kurage_bunch() {
    let title = "くらげバンチ（三咲くんは攻略キャラじゃない）";
    let expected = "三咲くんは攻略キャラじゃない";

    let source = MangaSource::KurageBunch;
    let got = source.cleanup_title(title);
    assert_eq!(got, expected);
}

#[test]
fn test_cleanup_comic_days() {
    let title = "コミックDAYS（外れスキル《木の実マスター》　～スキルの実（食べたら死ぬ）を無限に食べられるようになった件について～）";
    let expected = "外れスキル《木の実マスター》　～スキルの実（食べたら死ぬ）を無限に食べられるようになった件について～";

    let source = MangaSource::ComicDays;
    let got = source.cleanup_title(title);
    assert_eq!(got, expected);
}

#[test]
fn test_cleanup_magazine_pocket() {
    let title =
        "マガポケ（不遇職【鑑定士】が実は最強だった～奈落で鍛えた最強の【神眼】で無双する～）";
    let expected = "不遇職【鑑定士】が実は最強だった～奈落で鍛えた最強の【神眼】で無双する～";

    let source = MangaSource::MagazinePocket;
    let got = source.cleanup_title(title);
    assert_eq!(got, expected);
}

#[test]
fn test_replace_episode_url_magazine_pocket() {
    let episode_url = "https://mgpk-web.magazinepocket.com/title/02174/episode/381450";
    let expected = "https://pocket.shonenmagazine.com/title/02174/episode/381450";
    let source = MangaSource::MagazinePocket;
    let got = source.replace_episode_url(episode_url);
    assert_eq!(got, expected);
}

#[test]
fn test_cleanup_tonari_young_jump() {
    let title = "となりのヤングジャンプ（つれないほど青くて あざといくらいに赤い）";
    let expected = "つれないほど青くて あざといくらいに赤い";

    let source = MangaSource::TonariYoungJump;
    let got = source.cleanup_title(title);
    assert_eq!(got, expected);
}

#[test]
fn test_cleanup_sunday_webry() {
    let title = "サンデーうぇぶり（となりの席のヤツがそういう目で見てくる）";
    let expected = "となりの席のヤツがそういう目で見てくる";

    let source = MangaSource::SundayWebry;
    let got = source.cleanup_title(title);
    assert_eq!(got, expected);
}

#[test]
fn test_cleanup_comic_action() {
    let title = "webアクション｜双葉社発のマンガサイト（かくして！マキナさん!!）";
    let expected = "かくして！マキナさん!!";

    let source = MangaSource::ComicAction;
    let got = source.cleanup_title(title);
    assert_eq!(got, expected);
}

#[test]
fn test_cleanup_ichijin_plus() {
    let title = "一迅プラス（映しちゃダメな顔）";
    let expected = "映しちゃダメな顔";

    let source = MangaSource::IchijinPlus;
    let got = source.cleanup_title(title);
    assert_eq!(got, expected);
}

#[test]
fn test_cleanup_comic_gardo() {
    let title = "コミックガルド（××しないで！月峰さん。）";
    let expected = "××しないで！月峰さん。";

    let source = MangaSource::ComicGardo;
    let got = source.cleanup_title(title);
    assert_eq!(got, expected);
}

#[test]
fn test_cleanup_do_nothing() {
    let title = "恋する(おとめ)の作り方";

    let source = MangaSource::ComicPixiv;
    let got = source.cleanup_title(title);
    assert_eq!(got, title);
}

#[test]
fn urasunday_parse_chapter_id_from_url() {
    let url = "https://app.manga-one.com/secure/1754030157/webp/chapter/300898.webp?hash=UN0kclezTZQepugoVuOyHw&expires=1841184000";
    let expected = "300898";

    let result = manga_tracker::parser::urasunday::parse_chapter_id_from_url(url).unwrap();

    assert_eq!(expected, result);
}
