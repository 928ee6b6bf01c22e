use filmtrack::utils::{format_size, generate_cache_filename};
use std::collections::hash_map::DefaultHasher;
use std::hash::{Hash, Hasher};

fn reference_format(bytes: u64) -> String {
    let units = ["B", "KB", "MB", "GB", "TB"];
    if bytes == 0 {
        return "0 B".to_string();
    }
    let mut size = bytes as f64;
    let mut unit_index = 0;
    while size >= 1024.0 && unit_index < units.len() - 1 {
        size /= 1024.0;
        unit_index += 1;
    }
    if unit_index == 0 {
        format!("{} {}", size as u64, units[unit_index])
    } else {
        format!("{:.1} {}", size, units[unit_index])
    }
}

#[test]
fn zero_bytes() {
    assert_eq!(format_size(0), "0 B");
}

#[test]
fn sizes_below_one_kilobyte_are_plain_bytes() {
    assert_eq!(format_size(1), "1 B");
    assert_eq!(format_size(512), "512 B");
    assert_eq!(format_size(1023), "1023 B");
}

#[test]
fn each_unit_begins_at_its_power_of_1024() {
    assert_eq!(format_size(1024), "1.0 KB");
    assert_eq!(format_size(1024 * 1024), "1.0 MB");
    assert_eq!(format_size(1024 * 1024 * 1024), "1.0 GB");
    assert_eq!(format_size(1024u64 * 1024 * 1024 * 1024), "1.0 TB");
}

#[test]
fn one_decimal_place_is_kept() {
    assert_eq!(format_size(1536), "1.5 KB");
    assert_eq!(format_size(1258291), "1.2 MB");
    assert_eq!(format_size(5 * 1024 * 1024 + 300 * 1024), "5.3 MB");
    assert_eq!(format_size(123456789), "117.7 MB");
}

#[test]
fn a_tie_goes_to_the_even_tenth() {
    assert_eq!(format_size(1280), "1.2 KB");
    assert_eq!(format_size(1792), "1.8 KB");
    assert_eq!(format_size(1024 + 256 + 1), "1.3 KB");
    assert_eq!(format_size(1024 * 1024 + 256 * 1024), "1.2 MB");
    assert_eq!(format_size(1024 * 1024 + 768 * 1024), "1.8 MB");
}

#[test]
fn rounding_can_reach_1024_of_a_unit() {
    assert_eq!(format_size(1024 * 1024 - 1), "1024.0 KB");
    assert_eq!(format_size(1024 * 1024 * 1024 - 1), "1024.0 MB");
}

#[test]
fn terabytes_have_no_upper_end() {
    assert_eq!(format_size(5000 * 1024u64 * 1024 * 1024 * 1024), "5000.0 TB");
    assert_eq!(format_size(u64::MAX), "16777216.0 TB");
}

#[test]
fn formatting_agrees_with_floating_point_on_a_sweep() {
    let mut n: u64 = 1;
    while n < u64::MAX / 3 {
        for delta in [0u64, 1, 2, 51, 52, 53, 102, 103, 511, 512, 513] {
            for value in [n.saturating_sub(delta), n.saturating_add(delta)] {
                assert_eq!(format_size(value), reference_format(value), "{value} bytes");
            }
        }
        n = n * 3 + 1;
    }
}

#[test]
fn formatting_agrees_with_floating_point_near_every_power_of_two() {
    for exponent in 0..64u32 {
        let power = 1u64 << exponent;
        for delta in 0..70u64 {
            for value in [power.wrapping_sub(delta), power.wrapping_add(delta)] {
                assert_eq!(format_size(value), reference_format(value), "{value} bytes");
            }
        }
    }
}

#[test]
fn formatting_agrees_with_floating_point_beyond_53_bits() {
    let mut state: u64 = 0x9e3779b97f4a7c15;
    for _ in 0..20000 {
        state ^= state << 13;
        state ^= state >> 7;
        state ^= state << 17;
        let value = state | (1u64 << 60);
        assert_eq!(format_size(value), reference_format(value), "{value} bytes");
    }
}

#[test]
fn formatting_agrees_with_floating_point_at_tenth_boundaries() {
    for unit in [1024u64, 1024 * 1024, 1024 * 1024 * 1024, 1024u64 * 1024 * 1024 * 1024] {
        for twentieths in 20..400u64 {
            let boundary = unit / 20 * twentieths;
            for delta in 0..3u64 {
                for value in [boundary - delta, boundary + delta] {
                    assert_eq!(format_size(value), reference_format(value), "{value} bytes");
                }
            }
        }
    }
}

fn reference_filename(url: &str) -> String {
    let mut hasher = DefaultHasher::new();
    url.hash(&mut hasher);
    let hash = hasher.finish();
    let extension = url.split('.').last().unwrap_or("jpg");
    format!("{}.{}", hash, extension)
}

#[test]
fn cache_filename_is_hash_dot_extension() {
    let url = "https://img1.doubanio.com/view/photo/s_ratio_poster/public/p2561716440.jpg";
    let name = generate_cache_filename(url);
    assert_eq!(name, reference_filename(url));
    assert!(name.ends_with(".jpg"));
    let digits = name.strip_suffix(".jpg").unwrap();
    assert!(!digits.is_empty());
    assert!(digits.chars().all(|c| c.is_ascii_digit()));
    assert_eq!(digits.parse::<u64>().unwrap().to_string(), digits);
}

#[test]
fn cache_filename_depends_on_the_whole_address() {
    let a = generate_cache_filename("https://example.com/a.png");
    let b = generate_cache_filename("https://example.com/b.png");
    assert_ne!(a, b);
    assert_eq!(a, generate_cache_filename("https://example.com/a.png"));
    assert_ne!(a, generate_cache_filename(""));
}

#[test]
fn cache_filename_without_a_dot_repeats_the_address_as_extension() {
    assert_eq!(generate_cache_filename("poster"), reference_filename("poster"));
    assert!(generate_cache_filename("poster").ends_with(".poster"));
    assert_eq!(generate_cache_filename(""), reference_filename(""));
    assert_eq!(generate_cache_filename("a."), reference_filename("a."));
    assert!(generate_cache_filename("a.").ends_with("."));
}

#[test]
fn cache_filename_takes_what_follows_the_last_dot() {
    for url in [
        "https://a.b/c.tar.gz",
        "https://a.b/c",
        "https://a.b/图片.webp",
        "....",
        "a.b.c?x=1.5",
    ] {
        assert_eq!(generate_cache_filename(url), reference_filename(url), "{url}");
    }
    assert!(generate_cache_filename("https://a.b/c").ends_with(".b/c"));
}
