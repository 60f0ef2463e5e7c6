use rustit::cache::{
    cache_file_name_exec, create_cached_file_candidate, download_file_candidate, keeps_local_copy,
    load_plan, random_stem, stale_file, CacheRecord, FileLocks, LoadPlan, STEM_LEN,
};
use rustit::paths::join_path;
use rustit::storage::{
    accepts_storage_name, file_url, propagate_flag, seek_allowed, FileContext, Global, Profile,
    LEADING_SILENCE_SAMPLES,
};

#[test]
fn storage_names() {
    assert!(accepts_storage_name("hfs"));
    assert!(accepts_storage_name("HFS"));
    assert!(accepts_storage_name("s3"));
    assert!(!accepts_storage_name("http"));
    assert!(!accepts_storage_name(""));
}

#[test]
fn storage_profile_parameters() {
    let mut p: Profile<u8> = Profile::new("hfs");
    assert_eq!((p.file_not_found_expires, p.file_cache_ttl), (1, 1));
    p.apply_param("url", "http://files.example.com", "/usr/share/freeswitch/storage");
    assert_eq!(p.url, "http://files.example.com");
    assert_eq!(p.cache_dir, "/usr/share/freeswitch/storage/hfs_cache");
    p.apply_param("file-cache-ttl", "500", "/s");
    assert_eq!(p.file_cache_ttl, 120);
    p.apply_param("File-Not-Found-Expires", "abc", "/s");
    assert_eq!(p.file_not_found_expires, 5);
    p.apply_param("file-cache-ttl", "-3", "/s");
    assert_eq!(p.file_cache_ttl, 1);
    p.apply_param("cache-dir", "", "/s");
    assert_eq!(p.cache_dir, "/usr/share/freeswitch/storage/hfs_cache");
    p.apply_param("cache-dir", "/tmp/cache", "/s");
    assert_eq!(p.cache_dir, "/tmp/cache");
    assert!(p.is_usable());
    let q: Profile<u8> = Profile::new("s3");
    assert!(!q.is_usable());
}

#[test]
fn profiles_are_found_by_name_first_match() {
    let mut g: Global<u32> = Global::new();
    assert!(g.get("hfs").is_none());
    let mut a: Profile<u32> = Profile::new("hfs");
    a.cached = Some(1);
    let mut b: Profile<u32> = Profile::new("S3");
    b.cached = Some(2);
    let mut c: Profile<u32> = Profile::new("HFS");
    c.cached = Some(3);
    g.add(a);
    g.add(b);
    g.add(c);
    assert_eq!(g.get("Hfs").unwrap().cached, Some(1));
    assert_eq!(g.get("s3").unwrap().cached, Some(2));
    assert!(g.get("ftp").is_none());
    let closed = g.shutdown();
    assert_eq!(closed, vec![3, 2, 1]);
    assert!(g.profiles.is_empty());
    assert!(g.get("hfs").is_none());
}

#[test]
fn shutdown_skips_profiles_without_a_cache() {
    let mut g: Global<u32> = Global::new();
    let mut a: Profile<u32> = Profile::new("hfs");
    a.cached = Some(7);
    g.add(a);
    g.add(Profile::new("s3"));
    assert_eq!(g.shutdown(), vec![7]);
    assert_eq!(g.shutdown(), Vec::<u32>::new());
}

#[test]
fn file_context_plays_leading_silence() {
    let mut ctx: FileContext<i32, u8> = FileContext::new(5);
    assert_eq!(ctx.samples, LEADING_SILENCE_SAMPLES);
    assert_eq!(ctx.silence_read(4), Some(4));
    assert_eq!(ctx.silence_read(100), Some(6));
    assert_eq!(ctx.silence_read(1), None);
    assert_eq!(ctx.samples, 0);
    *ctx.file_ptr() = 9;
    assert_eq!(ctx.fh, 9);
    assert!(ctx.cached.is_none());
}

#[test]
fn file_interface_decisions() {
    assert_eq!(file_url("http://h", "a/b.wav"), "http://h/a/b.wav");
    assert!(seek_allowed(0));
    assert!(!seek_allowed(1));
    assert!(seek_allowed(2));
    assert_eq!(propagate_flag(0b0000, 0b0100, 0b0100), 0b0100);
    assert_eq!(propagate_flag(0b1111, 0b0000, 0b0100), 0b1011);
    assert_eq!(propagate_flag(0b1010, 0b0101, 0b0001), 0b1011);
}

#[test]
fn paths_join_like_unix_paths() {
    assert_eq!(join_path("/a", "b"), "/a/b");
    assert_eq!(join_path("/a/", "b"), "/a/b");
    assert_eq!(join_path("", "b"), "b");
    assert_eq!(join_path("/a", "/b"), "/b");
}

#[test]
fn lookups_follow_what_the_record_says() {
    assert!(matches!(load_plan(None, "/c"), LoadPlan::Download));
    let local = CacheRecord::unsynchronized("upload/x.wav");
    match load_plan(Some(&local), "/c") {
        LoadPlan::UseLocal { path } => assert_eq!(path, "/c/upload/x.wav"),
        _ => panic!("unsynchronized copies are used as they are"),
    }
    let synced = CacheRecord::synchronized(
        "download/y.wav".to_string(),
        Some("Mon, 01 Jan 2024 00:00:00 GMT".to_string()),
        None,
    );
    match load_plan(Some(&synced), "/c") {
        LoadPlan::Validate { if_modified_since, if_none_match } => {
            assert_eq!(if_modified_since.as_deref(), Some("Mon, 01 Jan 2024 00:00:00 GMT"));
            assert_eq!(if_none_match, None);
        }
        _ => panic!("synchronized copies are revalidated"),
    }
}

#[test]
fn revalidation_outcomes() {
    assert!(keeps_local_copy(None));
    assert!(keeps_local_copy(Some(304)));
    assert!(keeps_local_copy(Some(404)));
    assert!(keeps_local_copy(Some(500)));
    assert!(keeps_local_copy(Some(599)));
    assert!(!keeps_local_copy(Some(600)));
    assert!(!keeps_local_copy(Some(999)));
    assert!(!keeps_local_copy(Some(200)));
    assert!(!keeps_local_copy(Some(302)));
}

#[test]
fn stale_files() {
    let new = CacheRecord::unsynchronized("b");
    assert_eq!(stale_file(None, &new), None);
    assert_eq!(stale_file(Some(&CacheRecord::unsynchronized("a")), &new), Some("a".to_string()));
    assert_eq!(stale_file(Some(&CacheRecord::unsynchronized("b")), &new), None);
    assert_eq!(stale_file(Some(&CacheRecord::unsynchronized("")), &new), None);
}

#[test]
fn one_request_per_url() {
    let mut locks = FileLocks::new();
    assert!(!locks.is_locked("http://a/1"));
    assert!(locks.try_lock("http://a/1"));
    assert!(locks.is_locked("http://a/1"));
    assert!(!locks.try_lock("http://a/1"));
    assert!(locks.try_lock("http://a/2"));
    locks.unlock("http://a/1");
    assert!(!locks.is_locked("http://a/1"));
    assert!(locks.is_locked("http://a/2"));
    assert!(locks.try_lock("http://a/1"));
    locks.unlock("http://never/locked");
    assert_eq!(locks.locked.len(), 2);
}

#[test]
fn random_stems() {
    let a = random_stem();
    assert_eq!(a.chars().count(), STEM_LEN);
    assert!(a.chars().all(|c| c.is_ascii_alphanumeric()));
    let b = random_stem();
    assert_eq!(b.len(), STEM_LEN);
}

#[test]
fn cache_file_names_keep_the_extension() {
    assert_eq!(cache_file_name_exec("/c/upload", "abc", "/x/y/song.mp3"), "/c/upload/abc.mp3");
    assert_eq!(cache_file_name_exec("/c/upload", "abc", "/x/y/noext"), "/c/upload/abc.wav");
    assert_eq!(cache_file_name_exec("download", "abc", "http://h/p/f.tar.gz"), "download/abc.gz");
    assert_eq!(cache_file_name_exec("d", "abc", "/x/.hidden"), "d/abc.wav");
    let n = create_cached_file_candidate("/c", "/rec/call.wav");
    assert!(n.starts_with("/c/upload/"));
    assert!(n.ends_with(".wav"));
    assert_eq!(n.len(), "/c/upload/".len() + STEM_LEN + ".wav".len());
    let (abs, rel) = download_file_candidate("/c", "http://h/media/prompt.mp3");
    assert!(rel.starts_with("download/"));
    assert!(rel.ends_with(".mp3"));
    assert_eq!(abs, format!("/c/{}", rel));
}

#[test]
fn cache_file_extensions_follow_path_rules() {
    let cases = [
        ("/x/song.mp3", "d/abc.mp3"),
        ("/x/y/", "d/abc.wav"),
        ("/x/a.b.c/", "d/abc.c"),
        ("a/b.wav/.", "d/abc.wav"),
        ("a/b.wav/./", "d/abc.wav"),
        ("a/b.wav/..", "d/abc.wav"),
        (".hidden", "d/abc.wav"),
        ("dir/.hidden.ogg", "d/abc.ogg"),
        ("...", "d/abc"),
        ("name.", "d/abc"),
        ("/", "d/abc.wav"),
        (".", "d/abc.wav"),
        ("", "d/abc.wav"),
        ("http://h/p/f.tar.gz", "d/abc.gz"),
        ("http://h/f.mp3?x=1", "d/abc.mp3?x=1"),
    ];
    for (source, expected) in cases {
        let ext = std::path::Path::new(source).extension().map(|e| e.to_str().unwrap().to_string());
        let from_std = match ext {
            Some(e) if e.is_empty() => "d/abc".to_string(),
            Some(e) => format!("d/abc.{}", e),
            None => "d/abc.wav".to_string(),
        };
        assert_eq!(from_std, expected, "{}", source);
        assert_eq!(cache_file_name_exec("d", "abc", source), expected, "{}", source);
    }
}
