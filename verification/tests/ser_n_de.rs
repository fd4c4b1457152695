use ffxiv_versions::release_date_format;
use ffxiv_versions::{Date, GameVersion, Version};
use serde::ser::SerializeStruct;
use serde::Serialize;

const EXPECTED_JSON: &str = r#"{
	"game_version": "2026.01.30.0000.0000",
	"version_name": "7.41x1",
	"release_date": "2026-02-05",
	"patch_note_url": null,
	"update_notice_url": "https://na.finalfantasyxiv.com/lodestone/news/detail/e1cabf2fe5698223626bd53e6b6057a7612cf8fe"
}"#;

const EXPECTED_CSV: &str = r"game_version,version_name,release_date,patch_note_url,update_notice_url
2026.01.30.0000.0000,7.41x1,2026-02-05,,https://na.finalfantasyxiv.com/lodestone/news/detail/e1cabf2fe5698223626bd53e6b6057a7612cf8fe";

fn test_version() -> Version {
	// 2026.01.30.0000.0000,7.41x1,2026-02-05,,https://na.finalfantasyxiv.com/lodestone/news/detail/e1cabf2fe5698223626bd53e6b6057a7612cf8fe
	Version {
		game_version: GameVersion {
			date: Date::from_ymd_opt(2026, 1, 30).expect("Invalid date"),
			part: 0,
			revision: 0,
		},
		version_name: "7.41x1".to_owned(),
		release_date: Date::from_ymd_opt(2026, 2, 5).expect("Invalid date"),
		patch_note_url: None,
		update_notice_url: Some(
			"https://na.finalfantasyxiv.com/lodestone/news/detail/e1cabf2fe5698223626bd53e6b6057a7612cf8fe"
				.to_owned(),
		),
	}
}

/// The record as the data files hold it: versions and dates in their text forms.
struct Record<'a>(&'a Version);

impl Serialize for Record<'_> {
	fn serialize<S: serde::Serializer>(&self, serializer: S) -> Result<S::Ok, S::Error> {
		let version = self.0;
		let mut record = serializer.serialize_struct("Version", 5)?;
		record.serialize_field("game_version", &version.game_version.to_string())?;
		record.serialize_field("version_name", &version.version_name)?;
		record.serialize_field(
			"release_date",
			&release_date_format::serialize(&version.release_date),
		)?;
		record.serialize_field("patch_note_url", &version.patch_note_url)?;
		record.serialize_field("update_notice_url", &version.update_notice_url)?;
		record.end()
	}
}

fn version_from_fields(
	game_version: &str,
	version_name: &str,
	release_date: &str,
	patch_note_url: Option<&str>,
	update_notice_url: Option<&str>,
) -> Version {
	Version {
		game_version: GameVersion::from_str(game_version).expect("game version"),
		version_name: version_name.to_owned(),
		release_date: release_date_format::deserialize(release_date).expect("release date"),
		patch_note_url: patch_note_url.map(str::to_owned),
		update_notice_url: update_notice_url.map(str::to_owned),
	}
}

#[test]
fn json_test() {
	let version = test_version();

	let mut buf = Vec::with_capacity(256);
	let mut serializer = serde_json::Serializer::with_formatter(
		&mut buf,
		serde_json::ser::PrettyFormatter::with_indent(b"\t"),
	);
	Record(&version).serialize(&mut serializer).unwrap();
	let json = String::from_utf8(buf).unwrap();
	assert_eq!(json, EXPECTED_JSON);

	let value: serde_json::Value = serde_json::from_str(&json).unwrap();
	let field = |name: &str| value.get(name).and_then(serde_json::Value::as_str);
	let deserialized_version = version_from_fields(
		field("game_version").unwrap(),
		field("version_name").unwrap(),
		field("release_date").unwrap(),
		field("patch_note_url"),
		field("update_notice_url"),
	);
	assert_eq!(deserialized_version, version);
}

#[test]
fn csv_test() {
	let version = test_version();
	let mut buf = Vec::with_capacity(256);
	let mut writer = csv::Writer::from_writer(&mut buf);
	writer.serialize(Record(&version)).unwrap();
	drop(writer);
	let mut csv = String::from_utf8(buf).unwrap();
	csv.truncate(csv.trim_end().len()); // trailing '\n'
	assert_eq!(csv, EXPECTED_CSV);

	let mut reader = csv::Reader::from_reader(csv.as_bytes());
	let mut records_iter = reader.records();
	let record = records_iter.next().unwrap().unwrap();
	let optional = |i: usize| record.get(i).filter(|s| !s.is_empty());
	let deserialized_version = version_from_fields(
		record.get(0).unwrap(),
		record.get(1).unwrap(),
		record.get(2).unwrap(),
		optional(3),
		optional(4),
	);
	assert_eq!(deserialized_version, version);
	assert!(records_iter.next().is_none());
}
