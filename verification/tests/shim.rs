//! End-to-end tests of the boundary shim: text validation, wire encoding,
//! the handle lifecycle, and dispatch through test capabilities.

use cplugin::host::PluginHost;
use cplugin::plugin::{COptStr, CPlugin, CPluginEndpoints, InitInfo, PluginError};
use cplugin::sample::{blob_round_trip, SamplePlugin};
use cplugin::text::{bytes_eq, check_utf8, decode_text};
use cplugin::wire::{encode_float_result, encode_int_result, encode_size_result, write_str_result};
use cplugin::NWNXCPLUGIN_ABI_VERSION;

fn empty_info() -> InitInfo<'static> {
    InitInfo {
        dll_path: b"",
        nwnx_user_path: b"",
        nwn2_install_path: b"",
        nwn2_home_path: b"",
        nwn2_module_path: b"",
        nwnx_install_path: b"",
    }
}

/// Keeps every default accessor: declared-but-unimplemented behaviour.
struct NullPlugin;

impl CPlugin for NullPlugin {
    fn new(_info: InitInfo<'_>) -> Result<Self, PluginError> {
        Ok(NullPlugin)
    }
}

/// Construction always fails.
struct BrokenPlugin;

impl CPlugin for BrokenPlugin {
    fn new(_info: InitInfo<'_>) -> Result<Self, PluginError> {
        Err(PluginError::Message("refused".to_owned()))
    }
}

/// Records what it is handed, so tests can observe the decoded arguments.
struct EchoPlugin {
    id: Vec<u8>,
    stored: Vec<u8>,
}

impl CPlugin for EchoPlugin {
    fn new(info: InitInfo<'_>) -> Result<Self, PluginError> {
        Ok(EchoPlugin { id: info.dll_path.to_vec(), stored: Vec::new() })
    }

    fn get_id(&mut self) -> Vec<u8> {
        self.id.clone()
    }

    fn get_int(&mut self, function: &[u8], _param1: &[u8], param2: i32) -> Result<i32, PluginError> {
        if function.is_empty() {
            Err(PluginError::Message("empty selector".to_owned()))
        } else {
            Ok(param2)
        }
    }

    fn get_str(&mut self, function: &[u8], _param1: &[u8], _param2: i32) -> Result<Vec<u8>, PluginError> {
        Ok(function.to_vec())
    }

    fn set_str(
        &mut self,
        _function: &[u8],
        _param1: &[u8],
        _param2: i32,
        value: &[u8],
    ) -> Result<(), PluginError> {
        self.stored = value.to_vec();
        Ok(())
    }
}

#[test]
fn abi_version_is_one() {
    assert_eq!(NWNXCPLUGIN_ABI_VERSION, 1);
}

#[test]
fn utf8_check_accepts_well_formed_text() {
    assert!(check_utf8(b"hello"));
    assert!(check_utf8(b""));
    assert!(check_utf8(&[0xC3, 0xA9])); // two-byte sequence
    assert!(check_utf8(&[0xE2, 0x82, 0xAC])); // three-byte sequence
    assert!(check_utf8(&[0xF0, 0x9F, 0x98, 0x80])); // four-byte sequence
    assert!(check_utf8(&[0x7F, 0xDF, 0xBF, 0xEF, 0xBF, 0xBF]));
}

#[test]
fn utf8_check_rejects_malformed_text() {
    assert!(!check_utf8(&[0xFF]));
    assert!(!check_utf8(&[0x80])); // lone continuation byte
    assert!(!check_utf8(&[0xC0, 0x80])); // overlong two-byte form
    assert!(!check_utf8(&[0xC1, 0xBF])); // overlong two-byte form
    assert!(!check_utf8(&[0xE0, 0x80, 0x80])); // overlong three-byte form
    assert!(!check_utf8(&[0xED, 0xA0, 0x80])); // surrogate range
    assert!(!check_utf8(&[0xF0, 0x80, 0x80, 0x80])); // overlong four-byte form
    assert!(!check_utf8(&[0xF4, 0x90, 0x80, 0x80])); // beyond the last code point
    assert!(!check_utf8(&[0xF5, 0x80, 0x80, 0x80])); // bad leading byte
    assert!(!check_utf8(&[0xE2, 0x82])); // truncated sequence
    assert!(!check_utf8(&[0xC3])); // truncated sequence
}

#[test]
fn utf8_check_agrees_with_str_validation_on_all_short_inputs() {
    for a in 0..=255u8 {
        let one = [a];
        assert_eq!(check_utf8(&one), std::str::from_utf8(&one).is_ok());
    }
    for a in 0..=255u8 {
        for b in 0..=255u8 {
            let two = [a, b];
            assert_eq!(check_utf8(&two), std::str::from_utf8(&two).is_ok(), "bytes {a} {b}");
        }
    }
    for a in [0xE0u8, 0xE1, 0xED, 0xEF, 0xF0, 0xF2, 0xF4, 0x41] {
        for b in [0x00u8, 0x7F, 0x80, 0x8F, 0x90, 0x9F, 0xA0, 0xBF, 0xC0] {
            for c in [0x00u8, 0x80, 0xBF, 0xC0] {
                let three = [a, b, c];
                assert_eq!(
                    check_utf8(&three),
                    std::str::from_utf8(&three).is_ok(),
                    "bytes {a} {b} {c}"
                );
                for d in [0x00u8, 0x80, 0xBF, 0xC0] {
                    let four = [a, b, c, d];
                    assert_eq!(
                        check_utf8(&four),
                        std::str::from_utf8(&four).is_ok(),
                        "bytes {a} {b} {c} {d}"
                    );
                }
            }
        }
    }
}

#[test]
fn decode_passes_valid_text_through_and_blanks_invalid_text() {
    assert_eq!(decode_text(b"nwnx"), b"nwnx".to_vec());
    assert_eq!(decode_text(&[0xC3, 0xA9]), vec![0xC3, 0xA9]);
    assert_eq!(decode_text(&[0xFF, 0x41]), Vec::<u8>::new());
    assert_eq!(decode_text(&[0xED, 0xA0, 0x80]), Vec::<u8>::new());
}

#[test]
fn bytes_eq_compares_contents() {
    assert!(bytes_eq(b"abc", b"abc"));
    assert!(!bytes_eq(b"abc", b"abd"));
    assert!(!bytes_eq(b"abc", b"ab"));
    assert!(bytes_eq(b"", b""));
}

#[test]
fn opt_str_normalizes_both_shapes() {
    let terminated = COptStr::CStr(b"abc\0");
    assert_eq!(terminated.to_text_bytes(), b"abc".to_vec());
    let plain = COptStr::Str(b"abc");
    assert_eq!(plain.to_text_bytes(), b"abc".to_vec());
    let empty = COptStr::CStr(b"\0");
    assert_eq!(empty.to_text_bytes(), Vec::<u8>::new());
}

#[test]
fn failing_scalar_results_encode_to_zero() {
    let failed = PluginError::Message("cause does not matter".to_owned());
    assert_eq!(encode_int_result(Err(failed)), 0);
    assert_eq!(encode_int_result(Ok(-7)), -7);
    let unimplemented = PluginError::Unimplemented(CPluginEndpoints::get_float);
    assert_eq!(encode_float_result(Err(unimplemented)), 0);
    assert_eq!(f32::from_bits(0), 0.0f32);
    assert_eq!(encode_float_result(Ok(1.5f32.to_bits())), 1.5f32.to_bits());
    assert_eq!(encode_size_result(Err(PluginError::Message("x".to_owned()))), 0);
    assert_eq!(encode_size_result(Ok(17)), 17);
}

#[test]
fn string_result_that_fits_is_copied_and_terminated() {
    let mut dest = vec![9u8; 8];
    write_str_result(&mut dest, Ok(b"abc".to_vec()));
    assert_eq!(dest, vec![97, 98, 99, 0, 9, 9, 9, 9]);
}

#[test]
fn string_result_too_long_for_capacity_four_leaves_destination_unmodified() {
    let mut dest = vec![9u8, 8, 7, 6];
    write_str_result(&mut dest, Ok(b"hello".to_vec()));
    assert_eq!(dest, vec![9, 8, 7, 6]);
}

#[test]
fn string_result_at_exact_capacity_is_still_refused() {
    // content plus terminator must fit strictly within the capacity
    let mut dest = vec![9u8, 8, 7, 6];
    write_str_result(&mut dest, Ok(b"abc".to_vec()));
    assert_eq!(dest, vec![9, 8, 7, 6]);
}

#[test]
fn failing_string_result_writes_an_empty_string() {
    let mut dest = vec![9u8, 8, 7, 6];
    write_str_result(&mut dest, Err(PluginError::Unimplemented(CPluginEndpoints::get_str)));
    assert_eq!(dest, vec![0, 8, 7, 6]);
    let mut zero_capacity: Vec<u8> = Vec::new();
    write_str_result(&mut zero_capacity, Err(PluginError::Message("x".to_owned())));
    assert_eq!(zero_capacity, Vec::<u8>::new());
}

#[test]
fn construction_yields_distinct_usable_handles() {
    let mut host: PluginHost<NullPlugin> = PluginHost::new(vec![CPluginEndpoints::get_int]);
    let h1 = host.new_plugin(b"a.dll", b"", b"", b"", b"", b"");
    let h2 = host.new_plugin(b"b.dll", b"", b"", b"", b"", b"");
    assert_ne!(h1, 0);
    assert_ne!(h2, 0);
    assert_ne!(h1, h2);
    assert!(host.is_live(h1));
    assert!(host.is_live(h2));
}

#[test]
fn failed_construction_returns_the_sentinel_and_stores_nothing() {
    let mut host: PluginHost<BrokenPlugin> = PluginHost::new(vec![CPluginEndpoints::get_int]);
    let h = host.new_plugin(b"a.dll", b"", b"", b"", b"", b"");
    assert_eq!(h, 0);
    assert!(!host.is_live(h));
    assert!(!host.delete_plugin(h));
    assert!(!host.delete_plugin(h));
}

#[test]
fn teardown_releases_the_handle_exactly_once() {
    let mut host: PluginHost<NullPlugin> = PluginHost::new(vec![CPluginEndpoints::get_int]);
    let h = host.new_plugin(b"", b"", b"", b"", b"", b"");
    assert!(host.is_live(h));
    assert!(host.delete_plugin(h));
    assert!(!host.is_live(h));
    assert!(!host.delete_plugin(h)); // double teardown is detected
}

#[test]
fn accessors_on_a_stale_handle_yield_the_failure_wire_values() {
    let mut host: PluginHost<SamplePlugin> = PluginHost::new(vec![
        CPluginEndpoints::get_int,
        CPluginEndpoints::get_str,
        CPluginEndpoints::get_gff_size,
        CPluginEndpoints::get_gff,
    ]);
    let h = host.new_plugin(b"", b"", b"", b"", b"", b"");
    assert!(host.delete_plugin(h));
    assert_eq!(host.get_int_entry(h, b"f", b"p", 3), 0);
    assert_eq!(host.get_gff_size_entry(h, b"x"), 0);
    let mut dest = vec![9u8, 9, 9];
    host.get_str_entry(h, b"f", b"p", 0, &mut dest);
    assert_eq!(dest, vec![0, 9, 9]);
    let mut blob = vec![9u8, 9, 9];
    host.get_gff_entry(h, b"x", &mut blob);
    assert_eq!(blob, vec![9, 9, 9]);
}

#[test]
fn declared_but_unimplemented_operations_report_failure_on_the_wire() {
    let mut host: PluginHost<NullPlugin> = PluginHost::new(vec![
        CPluginEndpoints::get_id,
        CPluginEndpoints::get_int,
        CPluginEndpoints::get_float,
        CPluginEndpoints::get_str,
        CPluginEndpoints::get_gff_size,
    ]);
    let h = host.new_plugin(b"", b"", b"", b"", b"", b"");
    assert_ne!(h, 0);
    assert_eq!(host.get_int_entry(h, b"f", b"p", 5), 0);
    assert_eq!(host.get_float_entry(h, b"f", b"p", 5), 0);
    assert_eq!(host.get_gff_size_entry(h, b"x"), 0);
    let mut dest = vec![9u8, 9, 9];
    host.get_str_entry(h, b"f", b"p", 0, &mut dest);
    assert_eq!(dest, vec![0, 9, 9]);
    assert_eq!(host.get_id_entry(h), Vec::<u8>::new());
}

#[test]
fn omitted_operations_have_no_entry_point_in_the_lookup() {
    let host: PluginHost<NullPlugin> =
        PluginHost::new(vec![CPluginEndpoints::get_int, CPluginEndpoints::get_gff_size]);
    assert!(host.has_entry(CPluginEndpoints::get_int));
    assert!(host.has_entry(CPluginEndpoints::get_gff_size));
    assert!(!host.has_entry(CPluginEndpoints::set_int));
    assert!(!host.has_entry(CPluginEndpoints::get_gff));
    assert!(!host.has_entry(CPluginEndpoints::get_id));
}

#[test]
fn decoded_arguments_reach_the_capability_byte_for_byte() {
    let mut host: PluginHost<EchoPlugin> =
        PluginHost::new(vec![CPluginEndpoints::get_str, CPluginEndpoints::get_id]);
    let h = host.new_plugin(b"mods/echo.dll", b"", b"", b"", b"", b"");
    // the selector text arrives exactly as sent
    let mut dest = vec![9u8; 10];
    host.get_str_entry(h, b"abc", b"", 0, &mut dest);
    assert_eq!(dest, vec![97, 98, 99, 0, 9, 9, 9, 9, 9, 9]);
    // a construction path value arrives exactly as sent
    assert_eq!(host.get_id_entry(h), b"mods/echo.dll".to_vec());
}

#[test]
fn malformed_arguments_reach_the_capability_as_the_empty_string() {
    let mut host: PluginHost<EchoPlugin> =
        PluginHost::new(vec![CPluginEndpoints::get_str, CPluginEndpoints::get_id]);
    let h = host.new_plugin(&[0xFF, 0xFE], b"", b"", b"", b"", b"");
    // the malformed selector was replaced, never partially decoded
    let mut dest = vec![9u8; 6];
    host.get_str_entry(h, &[0xC0, 0x80], b"", 0, &mut dest);
    assert_eq!(dest, vec![0, 9, 9, 9, 9, 9]);
    // the malformed construction value was replaced as well
    assert_eq!(host.get_id_entry(h), Vec::<u8>::new());
}

#[test]
fn echoed_values_round_trip_through_set_and_get() {
    let mut host: PluginHost<EchoPlugin> = PluginHost::new(vec![CPluginEndpoints::get_int]);
    let h = host.new_plugin(b"", b"", b"", b"", b"", b"");
    assert_eq!(host.get_int_entry(h, b"f", b"p", 41), 41);
    // the echo capability fails on an empty selector: wire value zero
    assert_eq!(host.get_int_entry(h, b"", b"p", 41), 0);
}

#[test]
fn sample_register_is_readable_and_writable_through_the_boundary() {
    let mut host: PluginHost<SamplePlugin> =
        PluginHost::new(vec![CPluginEndpoints::get_int, CPluginEndpoints::set_int]);
    let h = host.new_plugin(b"", b"", b"", b"", b"", b"");
    assert_eq!(host.get_int_entry(h, b"reg", b"", 0), 0);
    host.set_int_entry(h, b"reg", b"", 0, 42);
    assert_eq!(host.get_int_entry(h, b"reg", b"", 0), 42);
}

#[test]
fn blob_size_query_then_read_does_not_truncate() {
    let mut host: PluginHost<SamplePlugin> =
        PluginHost::new(vec![CPluginEndpoints::get_gff_size, CPluginEndpoints::get_gff]);
    let h = host.new_plugin(b"", b"", b"", b"", b"", b"");
    let size = host.get_gff_size_entry(h, b"x");
    assert_eq!(size, 8);
    let mut buffer = vec![0u8; size];
    host.get_gff_entry(h, b"x", &mut buffer);
    assert_eq!(buffer, b"ABCDEFGH".to_vec());
}

#[test]
fn blob_round_trip_on_the_reference_capability() {
    let mut p = match SamplePlugin::new(empty_info()) {
        Ok(p) => p,
        Err(_) => panic!("reference capability must construct"),
    };
    assert_eq!(blob_round_trip(&mut p), b"ABCDEFGH".to_vec());
}

#[test]
fn blob_read_into_a_short_buffer_fills_only_its_capacity() {
    let mut p = SamplePlugin::new(empty_info()).ok().expect("constructs");
    let mut buffer = vec![9u8; 3];
    p.get_gff(b"x", &mut buffer);
    assert_eq!(buffer, b"ABC".to_vec());
    let mut untouched = vec![9u8; 3];
    p.get_gff(b"y", &mut untouched);
    assert_eq!(untouched, vec![9, 9, 9]);
}

#[test]
fn unknown_blob_name_fails_the_size_query() {
    let mut p = SamplePlugin::new(empty_info()).ok().expect("constructs");
    assert!(matches!(p.get_gff_size(b"y"), Err(PluginError::Message(_))));
    assert!(matches!(p.get_gff_size(b"x"), Ok(8)));
}

#[test]
fn default_accessors_fail_with_the_unimplemented_error() {
    let mut p = NullPlugin::new(empty_info()).ok().expect("constructs");
    assert!(matches!(
        p.get_int(b"f", b"p", 0),
        Err(PluginError::Unimplemented(CPluginEndpoints::get_int))
    ));
    assert!(matches!(
        p.set_int(b"f", b"p", 0, 1),
        Err(PluginError::Unimplemented(CPluginEndpoints::set_int))
    ));
    assert!(matches!(
        p.get_float(b"f", b"p", 0),
        Err(PluginError::Unimplemented(CPluginEndpoints::get_float))
    ));
    assert!(matches!(
        p.set_float(b"f", b"p", 0, 0),
        Err(PluginError::Unimplemented(CPluginEndpoints::set_float))
    ));
    assert!(matches!(
        p.get_str(b"f", b"p", 0),
        Err(PluginError::Unimplemented(CPluginEndpoints::get_str))
    ));
    assert!(matches!(
        p.set_str(b"f", b"p", 0, b"v"),
        Err(PluginError::Unimplemented(CPluginEndpoints::set_str))
    ));
    assert!(matches!(
        p.get_gff_size(b"x"),
        Err(PluginError::Unimplemented(CPluginEndpoints::get_gff_size))
    ));
    assert!(matches!(
        p.set_gff(b"x", b"data"),
        Err(PluginError::Unimplemented(CPluginEndpoints::set_gff))
    ));
    assert_eq!(p.get_id(), Vec::<u8>::new());
    assert_eq!(NullPlugin::get_info(), Vec::<u8>::new());
    assert_eq!(NullPlugin::get_version(), Vec::<u8>::new());
    // the default blob read writes nothing
    let mut buffer = vec![5u8, 5];
    p.get_gff(b"x", &mut buffer);
    assert_eq!(buffer, vec![5, 5]);
}
