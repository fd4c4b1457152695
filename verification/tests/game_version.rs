use ffxiv_versions::data_file::DataFile;
use ffxiv_versions::release_date_format::{self, InvalidReleaseDate};
use ffxiv_versions::{Date, GameVersion, ParseGameVersionError};

fn gv(y: i32, m: u32, d: u32, part: u32, revision: u32) -> GameVersion {
	GameVersion { date: Date::from_ymd_opt(y, m, d).unwrap(), part, revision }
}

#[test]
fn game_version_text() {
	assert_eq!(gv(2026, 1, 30, 0, 0).to_string(), "2026.01.30.0000.0000");
	assert_eq!(gv(2024, 7, 6, 12, 3).to_string(), "2024.07.06.0012.0003");
	assert_eq!(gv(2024, 7, 6, 123456, 7).to_string(), "2024.07.06.123456.0007");
	assert_eq!(gv(12345, 1, 2, 0, 0).to_string(), "+12345.01.02.0000.0000");
	assert_eq!(gv(-1, 1, 2, 0, 0).to_string(), "-0001.01.02.0000.0000");
	assert_eq!(gv(999, 12, 31, 1, 1).to_string(), "0999.12.31.0001.0001");
}

#[test]
fn game_version_parse() {
	assert_eq!(GameVersion::from_str("2025.06.10.0000.0000"), Ok(gv(2025, 6, 10, 0, 0)));
	assert_eq!(GameVersion::from_str("2023.12.12.0001.0002"), Ok(gv(2023, 12, 12, 1, 2)));
	assert_eq!(GameVersion::from_str("2023.12.12.+1.2"), Ok(gv(2023, 12, 12, 1, 2)));
	assert_eq!("2024.07.06.0000.0001".parse::<GameVersion>(), Ok(gv(2024, 7, 6, 0, 1)));
	assert_eq!(GameVersion::from_str("2023.12.12.0000"), Err(ParseGameVersionError::PartParsing));
	assert_eq!(GameVersion::from_str("2023"), Err(ParseGameVersionError::MissingParts));
	assert_eq!(GameVersion::from_str("2023.12"), Err(ParseGameVersionError::MissingParts));
	assert_eq!(GameVersion::from_str(""), Err(ParseGameVersionError::MissingParts));
	assert_eq!(
		GameVersion::from_str("2023.02.30.0000.0000"),
		Err(ParseGameVersionError::PartParsing)
	);
	assert_eq!(
		GameVersion::from_str("2023.12.12.0000.-1"),
		Err(ParseGameVersionError::PartParsing)
	);
	assert_eq!(
		GameVersion::from_str("2023.12.12.0000.4294967296"),
		Err(ParseGameVersionError::PartParsing)
	);
	assert_eq!(
		GameVersion::from_str("H2023.12.12.0000.0000"),
		Err(ParseGameVersionError::PartParsing)
	);
}

#[test]
fn game_version_round_trip() {
	for v in [
		gv(2026, 1, 30, 0, 0),
		gv(2024, 2, 29, 9999, 10000),
		gv(1, 1, 1, u32::MAX, 0),
		gv(262142, 12, 31, 5, 6),
		gv(-262143, 1, 1, 0, 7),
		gv(0, 6, 15, 42, 42),
	] {
		assert_eq!(GameVersion::from_str(&v.to_string()), Ok(v));
	}
}

#[test]
fn game_version_order() {
	let a = gv(2024, 7, 2, 0, 0);
	let b = gv(2024, 7, 2, 0, 1);
	let c = gv(2024, 7, 2, 1, 0);
	let d = gv(2024, 7, 3, 0, 0);
	assert!(a.lt(&b) && b.lt(&c) && c.lt(&d) && a.lt(&d));
	assert!(!b.lt(&a) && !a.lt(&a));
	assert!(a.same(&gv(2024, 7, 2, 0, 0)) && !a.same(&b));
}

#[test]
fn game_version_order_matches_text() {
	let versions = [
		gv(2013, 8, 27, 0, 0),
		gv(2024, 7, 2, 0, 0),
		gv(2024, 7, 2, 0, 1),
		gv(2024, 7, 2, 1, 0),
		gv(2024, 7, 3, 0, 0),
		gv(2024, 10, 1, 0, 0),
		gv(2025, 1, 9, 9999, 9999),
		gv(999, 12, 31, 5, 5),
	];
	for a in &versions {
		for b in &versions {
			assert_eq!(a.lt(b), a.to_string() < b.to_string());
			assert_eq!(a.lt(b), a < b);
			assert_eq!(a.same(b), a.to_string() == b.to_string());
		}
	}
}

#[test]
fn parse_error_messages() {
	assert_eq!(
		ParseGameVersionError::MissingParts.to_string(),
		"Failed to parse game version, some parts are missing from the name"
	);
	assert_eq!(
		ParseGameVersionError::PartParsing.to_string(),
		"Failed to parse game version, some parts could not be parsed"
	);
}

#[test]
fn release_date_text() {
	let date = Date::from_ymd_opt(2026, 2, 5).unwrap();
	assert_eq!(release_date_format::serialize(&date), "2026-02-05");
	assert_eq!(release_date_format::deserialize("2026-02-05"), Ok(date));
	assert_eq!(release_date_format::deserialize("2026.02.05"), Err(InvalidReleaseDate));
	assert_eq!(release_date_format::deserialize("2026-02-30"), Err(InvalidReleaseDate));
	let leap = Date::from_ymd_opt(2000, 2, 29).unwrap();
	assert_eq!(release_date_format::deserialize(&release_date_format::serialize(&leap)), Ok(leap));
}

#[test]
fn dates() {
	assert!(Date::from_ymd_opt(2023, 2, 29).is_none());
	assert!(Date::from_ymd_opt(2024, 2, 29).is_some());
	assert!(Date::from_ymd_opt(1900, 2, 29).is_none());
	assert!(Date::from_ymd_opt(2024, 13, 1).is_none());
	assert!(Date::from_ymd_opt(262143, 1, 1).is_none());
	assert!(Date::from_ymd_opt(-262143, 1, 1).is_some());
	let a = Date::from_ymd_opt(2026, 2, 5).unwrap();
	let b = Date::from_ymd_opt(2026, 1, 30).unwrap();
	assert_eq!(a.days_since(&b), 6);
	assert_eq!(b.days_since(&a), -6);
	let c = Date::from_ymd_opt(2025, 1, 1).unwrap();
	let d = Date::from_ymd_opt(2024, 1, 1).unwrap();
	assert_eq!(c.days_since(&d), 366);
	assert!(b.lt(&a) && b.le(&a) && a.le(&a) && !a.lt(&a));
}

#[test]
fn data_files() {
	assert_eq!(DataFile::Global.file_prefix(), "global");
	assert_eq!(DataFile::Cn.file_prefix(), "cn");
	assert_eq!(DataFile::Kr.file_prefix(), "kr");
	assert_eq!(DataFile::Tw.file_prefix(), "tw");
	assert_eq!(
		DataFile::all_files(),
		[DataFile::Global, DataFile::Cn, DataFile::Kr, DataFile::Tw]
	);
}
