use ffxiv_versions::basic_check::{check_versions_basic, BasicCheckError};
use ffxiv_versions::thaliak::{
	check_versions_thaliak, BaseGameRepositoriesResponse, BaseGameRepositoriesResponseVersion,
	DateTime, RepositoryVersion, ResponseData, ThaliakCheckError, ThaliakResponseError,
};
use ffxiv_versions::{CalendarDateTime, DataFile, Date, GameVersion, Time, Version};

fn date(y: i32, m: u32, d: u32) -> Date {
	Date::from_ymd_opt(y, m, d).unwrap()
}

fn version(build: (i32, u32, u32), release: (i32, u32, u32)) -> Version {
	Version {
		game_version: GameVersion { date: date(build.0, build.1, build.2), part: 0, revision: 0 },
		version_name: "7.0".to_owned(),
		release_date: date(release.0, release.1, release.2),
		patch_note_url: None,
		update_notice_url: None,
	}
}

fn at(y: i32, m: u32, d: u32, h: u32) -> DateTime {
	DateTime(CalendarDateTime::new(date(y, m, d), Time::from_hms_opt(h, 0, 0).unwrap()))
}

fn entry(text: &str, seen: DateTime, offered: DateTime) -> BaseGameRepositoriesResponseVersion {
	BaseGameRepositoriesResponseVersion {
		version_string: text.to_owned(),
		first_seen: seen,
		first_offered: offered,
	}
}

#[test]
fn basic_check_accepts_increasing_builds() {
	let versions = [version((2024, 6, 28), (2024, 7, 2)), version((2024, 7, 5), (2024, 7, 5))];
	assert_eq!(check_versions_basic(&versions), Ok(()));
}

#[test]
fn basic_check_rejects_empty() {
	assert_eq!(check_versions_basic(&[]), Err(BasicCheckError::NoVersions));
}

#[test]
fn basic_check_rejects_release_before_build() {
	let versions = [version((2024, 6, 28), (2024, 7, 2)), version((2024, 7, 5), (2024, 7, 4))];
	assert_eq!(
		check_versions_basic(&versions),
		Err(BasicCheckError::GameVersionAfterRelease { index: 1 })
	);
}

#[test]
fn basic_check_rejects_unordered_builds() {
	let versions = [
		version((2024, 6, 28), (2024, 7, 2)),
		version((2024, 6, 28), (2024, 7, 9)),
		version((2024, 6, 1), (2024, 7, 9)),
	];
	assert_eq!(
		check_versions_basic(&versions),
		Err(BasicCheckError::DatesNotIncreasing { index: 0 })
	);
}

#[test]
fn thaliak_check() {
	let versions = [version((2024, 6, 28), (2024, 7, 2))];
	let seen = at(2024, 7, 2, 8);
	let ok = [
		entry("2024.06.20.0000.0000", seen, seen),
		entry("H2024.06.28.0000.0000", seen, seen),
		entry("2024.06.28.0000.0000", seen, seen),
		entry("2024.07.10.0000.0000", at(2024, 7, 10, 8), at(2024, 7, 10, 8)),
	];
	assert_eq!(check_versions_thaliak(&versions, Some(&ok), DataFile::Global), Ok(()));
	assert_eq!(check_versions_thaliak(&versions, None, DataFile::Tw), Ok(()));

	let not_seen = [entry("2024.06.20.0000.0000", seen, seen)];
	assert_eq!(
		check_versions_thaliak(&versions, Some(&not_seen), DataFile::Cn),
		Err(ThaliakCheckError::NotSeen { version: 0 })
	);

	let greater = [entry("2024.06.28.0000.0000", seen, seen), entry("2024.06.29.0000.0000", seen, seen)];
	assert_eq!(
		check_versions_thaliak(&versions, Some(&greater), DataFile::Kr),
		Err(ThaliakCheckError::GreaterVersionSeen { version: 0, entry: 1 })
	);

	let late = [entry("2024.06.28.0000.0000", seen, at(2024, 7, 3, 1))];
	assert_eq!(
		check_versions_thaliak(&versions, Some(&late), DataFile::Global),
		Err(ThaliakCheckError::OfferedOnOtherDay { version: 0, entry: 0 })
	);
}

#[test]
fn thaliak_check_late_offer_exception() {
	let versions = [version((2025, 6, 10), (2025, 6, 17))];
	let seen = at(2025, 6, 17, 8);
	let late = [entry("2025.06.10.0000.0000", seen, at(2025, 6, 18, 1))];
	assert_eq!(check_versions_thaliak(&versions, Some(&late), DataFile::Global), Ok(()));
	assert_eq!(
		check_versions_thaliak(&versions, Some(&late), DataFile::Kr),
		Err(ThaliakCheckError::OfferedOnOtherDay { version: 0, entry: 0 })
	);
}

#[test]
fn thaliak_response_conversion() {
	let t1 = at(2023, 12, 12, 1);
	let t2 = at(2023, 12, 13, 1);
	let raw = |seen: Option<DateTime>, offered: Option<DateTime>| RepositoryVersion {
		version_string: "2023.12.12.0000.0000".to_owned(),
		first_seen: seen,
		first_offered: offered,
	};
	let only_offered = BaseGameRepositoriesResponseVersion::try_from(raw(None, Some(t2))).unwrap();
	assert_eq!((only_offered.first_seen, only_offered.first_offered), (t2, t2));
	let only_seen = BaseGameRepositoriesResponseVersion::try_from(raw(Some(t1), None)).unwrap();
	assert_eq!((only_seen.first_seen, only_seen.first_offered), (t1, t1));
	let both = BaseGameRepositoriesResponseVersion::try_from(raw(Some(t1), Some(t2))).unwrap();
	assert_eq!((both.first_seen, both.first_offered), (t1, t2));
	assert_eq!(
		BaseGameRepositoriesResponseVersion::try_from(raw(None, None)),
		Err(ThaliakResponseError::MissingTimestamps)
	);

	let data = ResponseData {
		global: Some(vec![raw(Some(t1), None)]),
		kr: Some(vec![]),
		cn: Some(vec![raw(None, Some(t2))]),
	};
	let response = BaseGameRepositoriesResponse::try_from(data.clone()).unwrap();
	assert_eq!(response.global.len(), 1);
	assert_eq!(response.cn[0].first_seen, t2);
	assert!(response.kr.is_empty());
	assert_eq!(response.versions_for(DataFile::Cn).map(|v| v.len()), Some(1));
	assert!(response.versions_for(DataFile::Tw).is_none());

	let mut missing = data.clone();
	missing.cn = None;
	assert_eq!(BaseGameRepositoriesResponse::try_from(missing), Err(ThaliakResponseError::MissingCn));
	let mut gap = data;
	gap.kr = Some(vec![raw(None, None)]);
	assert_eq!(
		BaseGameRepositoriesResponse::try_from(gap),
		Err(ThaliakResponseError::MissingTimestamps)
	);
}

#[test]
fn thaliak_timestamps() {
	let t = DateTime::parse_rfc3339("2024-07-02T01:30:00+09:00").unwrap();
	assert_eq!(t.date_naive(), date(2024, 7, 1));
	assert_eq!(t.0.time.hour(), 16);
	assert_eq!(t.0.time.minute(), 30);
	assert!(DateTime::parse_rfc3339("2024-07-02").is_none());
}
