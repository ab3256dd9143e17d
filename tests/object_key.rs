use qiniu_uploader::{
    append_decimal, append_padded2, build_object_key, build_object_key_today, file_base_name,
    object_key, LocalDate, FALLBACK_NAME,
};

fn date(year: i32, month: u32, day: u32) -> LocalDate {
    LocalDate { year, month, day }
}

#[test]
fn key_for_photo_on_march_seventh() {
    let k = object_key(&date(2024, 3, 7), "photo.png");
    assert_eq!(k, "image/2024/03/07/photo.png");
}

#[test]
fn key_pads_month_and_day_but_not_year() {
    assert_eq!(object_key(&date(987, 12, 31), "a.txt"), "image/987/12/31/a.txt");
    assert_eq!(object_key(&date(2025, 1, 1), "b"), "image/2025/01/01/b");
    assert_eq!(object_key(&date(2025, 10, 9), "c.jpg"), "image/2025/10/09/c.jpg");
}

#[test]
fn key_writes_negative_year_with_sign() {
    assert_eq!(object_key(&date(-44, 3, 15), "x.png"), "image/-44/03/15/x.png");
}

#[test]
fn decimal_writing() {
    let mut s = String::from("n=");
    append_decimal(&mut s, 0);
    assert_eq!(s, "n=0");
    let mut s = String::new();
    append_decimal(&mut s, 4294967295);
    assert_eq!(s, "4294967295");
    let mut s = String::new();
    append_padded2(&mut s, 7);
    append_padded2(&mut s, 10);
    append_padded2(&mut s, 123);
    assert_eq!(s, "0710123");
}

#[test]
fn base_name_is_final_segment() {
    assert_eq!(file_base_name("dir/sub/photo.png"), "photo.png");
    assert_eq!(file_base_name("/abs/path/shot.jpg"), "shot.jpg");
    assert_eq!(file_base_name("plain.txt"), "plain.txt");
    assert_eq!(file_base_name("dir/name/"), "name");
}

#[test]
fn base_name_falls_back_without_final_segment() {
    assert_eq!(file_base_name("dir/.."), FALLBACK_NAME);
    assert_eq!(file_base_name(".."), "fallback.png");
    assert_eq!(file_base_name("/"), "fallback.png");
    assert_eq!(file_base_name(""), "fallback.png");
}

#[test]
fn build_key_uses_base_name() {
    let t = build_object_key("uploads/2024/cat.gif", &date(2024, 3, 7));
    assert_eq!(t.file_name, "cat.gif");
    assert_eq!(t.object_key, "image/2024/03/07/cat.gif");
}

#[test]
fn build_key_falls_back_to_fallback_png() {
    let t = build_object_key("some/dir/..", &date(2023, 11, 2));
    assert_eq!(t.file_name, "fallback.png");
    assert_eq!(t.object_key, "image/2023/11/02/fallback.png");
    assert!(t.object_key.ends_with("fallback.png"));
}

#[test]
fn build_key_today_uses_a_calendar_date() {
    let (d, t) = build_object_key_today("in/today.png");
    assert!((1..=12).contains(&d.month));
    assert!((1..=31).contains(&d.day));
    assert!(d.year >= 2000);
    assert_eq!(t.file_name, "today.png");
    assert_eq!(t.object_key, format!("image/{}/{:02}/{:02}/today.png", d.year, d.month, d.day));
}
