use ffxiv_versions::update_notice::global::{self, GlobalNoticeStep};
use ffxiv_versions::update_notice::{
	check_update_notice, check_versions_update_notices, cn, first_lacking_patch_notes, kr,
	lacks_patch_notes, tw, update_notice_request_url,
	NoticeCheckError, NoticeMismatch, RequestUrlError, UpdateNoticeInfo, UpdateNoticeParseError,
	UpdateNoticeRegexes, UpdateNoticeType,
};
use ffxiv_versions::{CalendarDateTime, DataFile, Date, GameVersion, ParseGameVersionError, Time, Version};

fn date(y: i32, m: u32, d: u32) -> Date {
	Date::from_ymd_opt(y, m, d).unwrap()
}

fn utc(y: i32, m: u32, d: u32, h: u32, min: u32) -> CalendarDateTime {
	CalendarDateTime::new(date(y, m, d), Time::from_hms_opt(h, min, 0).unwrap())
}

fn gv(y: i32, m: u32, d: u32) -> GameVersion {
	GameVersion { date: date(y, m, d), part: 0, revision: 0 }
}

fn version(name: &str, build: GameVersion, release: Date, patch_notes: Option<&str>) -> Version {
	Version {
		game_version: build,
		version_name: name.to_owned(),
		release_date: release,
		patch_note_url: patch_notes.map(str::to_owned),
		update_notice_url: None,
	}
}

#[test]
fn request_urls() {
	assert_eq!(
		update_notice_request_url(
			DataFile::Cn,
			"https://ff.web.sdo.com/web8/index.html#/newstab/newscont/336870"
		),
		Ok("https://cqnews.web.sdo.com/api/news/newsDetail?gameCode=ff&id=336870".to_owned())
	);
	assert_eq!(
		update_notice_request_url(DataFile::Cn, "https://ff.web.sdo.com/web8/index.html"),
		Err(RequestUrlError::MissingFragment)
	);
	let kr = "https://www.ff14.co.kr/news/notice/view?category=1&id=3910";
	assert_eq!(update_notice_request_url(DataFile::Kr, kr), Ok(kr.to_owned()));
}

#[test]
fn regexes_compile() {
	let regexes = UpdateNoticeRegexes::compile_all().unwrap();
	assert_eq!(regexes.cn.game_version_re, cn::GAME_VERSION_PATTERN);
	assert_eq!(regexes.tw.patch_name_re, tw::PATCH_NAME_PATTERN);
}

#[test]
fn cn_notices() {
	let regexes = cn::Regexes::compile_all().unwrap();
	let named = cn::parse_update_notice(
		"2024/07/02 10:00:00",
		"Ver.2024.06.28.0000.0000\u{ff08}7.0\u{7248}\u{672c}\u{ff09}",
		&regexes,
	)
	.unwrap();
	assert_eq!(named.datetime, utc(2024, 7, 2, 2, 0));
	assert_eq!(
		named.update_notice_type,
		UpdateNoticeType::NamedPatchCn { patch_name: "7.0".to_owned(), game_version: gv(2024, 6, 28) }
	);
	let hotfix = cn::parse_update_notice("2024/07/02 00:30:00", "no version here", &regexes).unwrap();
	assert_eq!(hotfix.datetime, utc(2024, 7, 1, 16, 30));
	assert_eq!(hotfix.update_notice_type, UpdateNoticeType::Hotfix);
	assert_eq!(
		cn::parse_update_notice("2024-07-02 10:00:00", "", &regexes).unwrap_err(),
		UpdateNoticeParseError::InvalidDateTime
	);
	assert_eq!(
		cn::parse_update_notice(
			"2024/07/02 10:00:00",
			"Ver.2024.02.30.0000.0000\u{ff08}7.0\u{7248}\u{672c}\u{ff09}",
			&regexes
		)
		.unwrap_err(),
		UpdateNoticeParseError::InvalidGameVersion(ParseGameVersionError::PartParsing)
	);
}

const KR_NAMED: &str = "<html><body><div class=\"ff14_board_view\"><div class=\"board_sub_title\"><div class=\"board_info\"><span class=\"date\">24-07-02 10:00</span></div></div><div class=\"board_view_box\"><p><a href=\"/news/patchnote/view/123\">[V7.0 \u{d328}\u{ce58}\u{b178}\u{d2b8} \u{bc14}\u{b85c}\u{ac00}\u{ae30}]</a></p></div></div></body></html>";

const KR_HOTFIX: &str = "<html><body><div class=\"ff14_board_view\"><div class=\"board_sub_title\"><div class=\"board_info\"><span class=\"date\">24-07-04 00:00</span></div></div><div class=\"board_view_box\"><p>Hot-fix</p></div></div></body></html>";

#[test]
fn kr_notices() {
	let regexes = kr::Regexes::compile_all().unwrap();
	let named = kr::parse_update_notice(KR_NAMED, &regexes).unwrap();
	assert_eq!(named.datetime, utc(2024, 7, 2, 1, 0));
	assert_eq!(
		named.update_notice_type,
		UpdateNoticeType::NamedPatchKrTw {
			patch_note_url: "https://www.ff14.co.kr/news/patchnote/view/123".to_owned(),
			patch_name: "7.0".to_owned(),
		}
	);
	let hotfix = kr::parse_update_notice(KR_HOTFIX, &regexes).unwrap();
	assert_eq!(hotfix.datetime, utc(2024, 7, 3, 15, 0));
	assert_eq!(hotfix.update_notice_type, UpdateNoticeType::Hotfix);
	assert_eq!(
		kr::parse_update_notice("<html></html>", &regexes).unwrap_err(),
		UpdateNoticeParseError::MissingElement
	);
}

const TW_NAMED: &str = "<html><body><div class=\"content\"><div class=\"news_title\"><div class=\"news_info1\"><div class=\"news_info11-2\"><span class=\"Date\">2024-12-30 18:00</span></div></div></div><div class=\"article\"><div class=\"notice\">1/2 10:00 ~ 16:00</div><p><b>intro</b></p><p><b>7.1\u{7248}\u{672c}</b></p><p><a href=\"https://www.ffxiv.com.tw/web/news/patch71\">notes</a></p></div></div></body></html>";

#[test]
fn tw_notices() {
	let regexes = tw::Regexes::compile_all().unwrap();
	let named = tw::parse_update_notice(TW_NAMED, &regexes).unwrap();
	assert_eq!(named.datetime, utc(2025, 1, 2, 8, 0));
	assert_eq!(
		named.update_notice_type,
		UpdateNoticeType::NamedPatchTw {
			patch_note_url: Some("https://www.ffxiv.com.tw/web/news/patch71".to_owned()),
			patch_name: "7.1".to_owned(),
		}
	);
	let no_window = TW_NAMED.replace("1/2 10:00 ~ 16:00", "soon");
	assert_eq!(
		tw::parse_update_notice(&no_window, &regexes).unwrap_err(),
		UpdateNoticeParseError::MissingMaintenanceEndTime
	);
	let bad_day = TW_NAMED.replace("1/2 10:00", "2/30 10:00");
	assert_eq!(
		tw::parse_update_notice(&bad_day, &regexes).unwrap_err(),
		UpdateNoticeParseError::InvalidDate
	);
	let hotfix = TW_NAMED.replace("7.1\u{7248}\u{672c}", "hotfix");
	assert_eq!(
		tw::parse_update_notice(&hotfix, &regexes).unwrap().update_notice_type,
		UpdateNoticeType::Hotfix
	);
}

const GLOBAL_NAMED: &str = "<html><body><article><header><time><script>document.write(ldst_strftime(1719900000, 'YMD');</script></time></header><div><a href=\"https://na.finalfantasyxiv.com/lodestone/topics/detail/abc\">Patch 7.0 Notes</a><p>Patch 7.0</p></div></article></body></html>";

#[test]
fn global_notices() {
	let regexes = global::Regexes::compile_all().unwrap();
	let step = global::parse_update_notice(GLOBAL_NAMED, &regexes).unwrap();
	let datetime = utc(2024, 7, 2, 6, 0);
	assert_eq!(
		step,
		GlobalNoticeStep::FollowPatchNoteLink {
			datetime,
			link: "https://na.finalfantasyxiv.com/lodestone/topics/detail/abc".to_owned(),
		}
	);
	let info = global::finish_update_notice(
		datetime,
		Some("https://na.finalfantasyxiv.com/lodestone/topics/detail/def"),
	)
	.unwrap();
	assert_eq!(
		info.update_notice_type,
		UpdateNoticeType::NamedPatchGlobal {
			patch_note_url: "https://na.finalfantasyxiv.com/lodestone/topics/detail/def".to_owned()
		}
	);
	assert_eq!(
		global::finish_update_notice(datetime, None).unwrap_err(),
		UpdateNoticeParseError::MissingLocation
	);
	let hotfix = GLOBAL_NAMED.replace("<p>Patch 7.0</p>", "<p>FINAL FANTASY XIV Hotfixes (Jul. 3)</p>");
	assert_eq!(
		global::parse_update_notice(&hotfix, &regexes).unwrap(),
		GlobalNoticeStep::Done(UpdateNoticeInfo { datetime, update_notice_type: UpdateNoticeType::Hotfix })
	);
	let no_stamp = GLOBAL_NAMED.replace("1719900000", "soon");
	assert_eq!(
		global::parse_update_notice(&no_stamp, &regexes).unwrap_err(),
		UpdateNoticeParseError::MissingTimestamp
	);
}

fn info(datetime: CalendarDateTime, kind: UpdateNoticeType) -> UpdateNoticeInfo {
	UpdateNoticeInfo { datetime, update_notice_type: kind }
}

#[test]
fn notice_checks() {
	let v = version("7.0", gv(2024, 6, 28), date(2024, 7, 2), Some("https://example.com/notes"));
	let named = info(
		utc(2024, 7, 2, 6, 0),
		UpdateNoticeType::NamedPatchGlobal { patch_note_url: "https://example.com/notes".to_owned() },
	);
	assert_eq!(check_update_notice(&v, &named, DataFile::Global), Ok(()));
	let other_notes = info(
		utc(2024, 7, 2, 6, 0),
		UpdateNoticeType::NamedPatchGlobal { patch_note_url: "https://example.com/other".to_owned() },
	);
	assert_eq!(
		check_update_notice(&v, &other_notes, DataFile::Global),
		Err(NoticeCheckError::PatchNoteUrlMismatch)
	);
	let hotfix = info(utc(2024, 7, 2, 6, 0), UpdateNoticeType::Hotfix);
	assert_eq!(check_update_notice(&v, &hotfix, DataFile::Global), Err(NoticeCheckError::HotfixWithPatchNotes));
	let next_day = info(utc(2024, 7, 3, 6, 0), UpdateNoticeType::Hotfix);
	let plain = version("7.01", gv(2024, 6, 28), date(2024, 7, 2), None);
	assert_eq!(
		check_update_notice(&plain, &next_day, DataFile::Global),
		Err(NoticeCheckError::ReleaseDateMismatch)
	);
	// CN and KR `.0` releases may be announced up to a day later.
	assert_eq!(check_update_notice(&v, &next_day, DataFile::Kr), Err(NoticeCheckError::HotfixWithPatchNotes));
	let dot_zero = version("7.0", gv(2024, 6, 28), date(2024, 7, 2), None);
	assert_eq!(check_update_notice(&dot_zero, &next_day, DataFile::Kr), Ok(()));
	let two_days = info(utc(2024, 7, 4, 6, 0), UpdateNoticeType::Hotfix);
	assert_eq!(
		check_update_notice(&dot_zero, &two_days, DataFile::Cn),
		Err(NoticeCheckError::NoticeTooLate)
	);
	// CN's one notice dated a day early.
	let cn_exception = version("7.35", gv(2025, 10, 23), date(2025, 11, 4), None);
	let cn_notice = info(utc(2025, 11, 2, 16, 0), UpdateNoticeType::Hotfix);
	assert_eq!(check_update_notice(&cn_exception, &cn_notice, DataFile::Cn), Ok(()));
	assert_eq!(
		check_update_notice(&cn_exception, &cn_notice, DataFile::Global),
		Err(NoticeCheckError::ReleaseDateMismatch)
	);
	let cn_named = info(
		utc(2024, 7, 2, 2, 0),
		UpdateNoticeType::NamedPatchCn { patch_name: "7.0".to_owned(), game_version: gv(2024, 6, 29) },
	);
	assert_eq!(
		check_update_notice(&dot_zero, &cn_named, DataFile::Cn),
		Err(NoticeCheckError::GameVersionMismatch)
	);
	let kr_named = info(
		utc(2024, 7, 2, 1, 0),
		UpdateNoticeType::NamedPatchKrTw { patch_note_url: "https://example.com/notes".to_owned(), patch_name: "7.01".to_owned() },
	);
	assert_eq!(check_update_notice(&v, &kr_named, DataFile::Kr), Err(NoticeCheckError::PatchNameMismatch));

	let versions = [plain.clone(), v.clone()];
	let notices = [None, Some(hotfix.clone())];
	assert_eq!(
		check_versions_update_notices(&versions, &notices, DataFile::Global),
		Err(NoticeMismatch { index: 1, error: NoticeCheckError::HotfixWithPatchNotes })
	);
	assert_eq!(check_versions_update_notices(&versions, &[None, Some(named.clone())], DataFile::Global), Ok(()));
}

#[test]
fn missing_patch_notes() {
	let with_notes = version("7.0", gv(2024, 6, 28), date(2024, 7, 2), Some("https://example.com/notes"));
	let without = version("7.0", gv(2024, 6, 28), date(2024, 7, 2), None);
	let named = info(
		utc(2024, 7, 2, 6, 0),
		UpdateNoticeType::NamedPatchGlobal { patch_note_url: "https://example.com/notes".to_owned() },
	);
	let named_late = info(
		utc(2024, 7, 5, 6, 0),
		UpdateNoticeType::NamedPatchGlobal { patch_note_url: "https://example.com/notes".to_owned() },
	);
	let hotfix = info(utc(2024, 7, 2, 6, 0), UpdateNoticeType::Hotfix);
	assert!(lacks_patch_notes(&without, &named, DataFile::Global));
	assert!(!lacks_patch_notes(&with_notes, &named, DataFile::Global));
	assert!(!lacks_patch_notes(&without, &hotfix, DataFile::Global));
	// The release date is checked first, so a late notice is reported as such.
	assert!(!lacks_patch_notes(&without, &named_late, DataFile::Global));
	assert_eq!(
		check_update_notice(&without, &named_late, DataFile::Global),
		Err(NoticeCheckError::ReleaseDateMismatch)
	);

	let versions = [with_notes.clone(), without.clone()];
	assert_eq!(
		first_lacking_patch_notes(&versions, &[Some(named.clone()), Some(named.clone())], DataFile::Global),
		Some(1)
	);
	assert_eq!(first_lacking_patch_notes(&versions, &[Some(named.clone()), None], DataFile::Global), None);
	// A disagreement before it ends the check, so the later release is never reached.
	let early = [without.clone(), without.clone()];
	assert_eq!(
		first_lacking_patch_notes(&early, &[Some(named_late.clone()), Some(named.clone())], DataFile::Global),
		None
	);
	assert_eq!(
		check_versions_update_notices(&early, &[Some(named_late), Some(named)], DataFile::Global),
		Err(NoticeMismatch { index: 0, error: NoticeCheckError::ReleaseDateMismatch })
	);
}

#[test]
fn notice_accessors() {
	let kind = UpdateNoticeType::NamedPatchTw { patch_note_url: None, patch_name: "7.1".to_owned() };
	assert_eq!(kind.patch_note_url(), None);
	assert_eq!(kind.patch_name().map(String::as_str), Some("7.1"));
	assert_eq!(kind.game_version(), None);
	assert!(UpdateNoticeType::Hotfix.is_hotfix());
	assert_eq!(UpdateNoticeType::Hotfix.patch_name(), None);
	let cn = UpdateNoticeType::NamedPatchCn { patch_name: "7.0".to_owned(), game_version: gv(2024, 6, 28) };
	assert_eq!(cn.game_version(), Some(&gv(2024, 6, 28)));
	assert_eq!(cn.patch_note_url(), None);
}

#[test]
fn utc_conversions() {
	let local = utc(2024, 1, 1, 3, 0);
	assert_eq!(local.local_to_utc(28800), Some(utc(2023, 12, 31, 19, 0)));
	assert_eq!(CalendarDateTime::from_timestamp_secs(0), Some(utc(1970, 1, 1, 0, 0)));
	assert_eq!(CalendarDateTime::from_timestamp_secs(1719900000), Some(utc(2024, 7, 2, 6, 0)));
	assert_eq!(CalendarDateTime::from_timestamp_secs(i64::MAX), None);
}

#[test]
fn utc_conversions_at_range_limits() {
	let first = utc(-262143, 1, 1, 0, 0);
	let last = CalendarDateTime::new(
		Date::from_ymd_opt(262142, 12, 31).unwrap(),
		Time::from_hms_opt(23, 59, 59).unwrap(),
	);
	assert_eq!(CalendarDateTime::from_timestamp_secs(-8_334_601_228_800), Some(first));
	assert_eq!(CalendarDateTime::from_timestamp_secs(-8_334_601_228_801), None);
	assert_eq!(CalendarDateTime::from_timestamp_secs(8_210_266_876_799), Some(last));
	assert_eq!(CalendarDateTime::from_timestamp_secs(8_210_266_876_800), None);
	// In the last year: east of UTC stays in range, west of it leaves the range.
	let late = utc(262142, 12, 31, 23, 0);
	assert_eq!(late.local_to_utc(28800), Some(utc(262142, 12, 31, 15, 0)));
	assert_eq!(late.local_to_utc(-3600), None);
	// In the first year: west of UTC stays in range, east of it leaves the range.
	let early = utc(-262143, 1, 1, 3, 0);
	assert_eq!(early.local_to_utc(-3600), Some(utc(-262143, 1, 1, 4, 0)));
	assert_eq!(early.local_to_utc(28800), None);
}
