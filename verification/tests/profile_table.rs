use audioconv::outcome::ConvError;
use audioconv::profiles::lookup;
use audioconv::profiles::method_label;
use audioconv::profiles::profiles;

#[test]
fn table_has_the_five_presets_in_order() {
    let table = profiles();
    let names: Vec<&str> = table.iter().map(|p| p.name.as_str()).collect();
    assert_eq!(names, vec!["low", "mid", "high", "karaoke", "preview"]);
}

#[test]
fn lookup_finds_every_profile_under_its_own_name() {
    let table = profiles();
    for p in table.iter() {
        let found = lookup(&table, p.name.as_str()).unwrap();
        assert_eq!(&found, p);
    }
}

#[test]
fn lookup_of_unknown_name_is_profile_not_found() {
    let table = profiles();
    assert_eq!(lookup(&table, "nonexistent").unwrap_err(), ConvError::ProfileNotFound);
}

#[test]
fn mid_profile_fields() {
    let table = profiles();
    let mid = lookup(&table, "mid").unwrap();
    assert_eq!(mid.ext, "mp3");
    assert_eq!(mid.codec, "libmp3lame");
    assert_eq!(mid.bitrate, Some("160k".to_string()));
}

#[test]
fn profile_names_are_unique() {
    let table = profiles();
    for i in 0..table.len() {
        for j in (i + 1)..table.len() {
            assert_ne!(table[i].name, table[j].name);
        }
    }
}

#[test]
fn method_labels() {
    let table = profiles();
    let karaoke = lookup(&table, "karaoke").unwrap();
    let mid = lookup(&table, "mid").unwrap();
    assert_eq!(method_label(&karaoke), "FFmpeg Filter");
    assert_eq!(method_label(&mid), "FFmpeg");
}
