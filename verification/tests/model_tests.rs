use ustx::expression::rename_expressions;
use ustx::note::{
    default_note_duration, default_note_lyric, default_snap_first, default_vibrato_depth,
    default_vibrato_in, default_vibrato_out, default_vibrato_period, rewrite_lyric,
};
use ustx::part::default_part_name;
use ustx::project::{
    default_beat_per_bar, default_beat_unit, default_bpm, default_cache_dir,
    default_exp_secondary, default_exp_selectors, default_output_dir, default_project_name,
    default_resolution, default_tempos, default_time_signatures, default_tracks, pad_selectors,
};
use ustx::track::{default_track_color, default_track_name, default_voice_color_names};
use ustx::text::same_text;
use ustx::{
    Curve, Error, Expression, ExpressionDescriptor, ExpressionMap, ExpressionType, Float32,
    Float64, Note, PhonemeOverride, Pitch, PitchPoint, PitchPointShape, RenderSettings, Tempo,
    TimeSignature, Track, Vibrato, VoicePart, WavePart,
};

fn descriptor(name: &str, abbr: &str) -> ExpressionDescriptor {
    ExpressionDescriptor {
        name: String::from(name),
        abbr: String::from(abbr),
        kind: ExpressionType::Numerical,
        min: Float32::from_bits(0.0f32.to_bits()),
        max: Float32::from_bits(100.0f32.to_bits()),
        default_value: Float32::from_bits(50.0f32.to_bits()),
        is_flag: false,
        flag: None,
        options: Vec::new(),
    }
}

#[test]
fn note_defaults() {
    assert_eq!(default_note_duration(), 120);
    assert_eq!(default_note_lyric(), "\u{3042}");
    assert!(default_snap_first());
    assert_eq!(f32::from_bits(default_vibrato_period().to_bits()), 175.0);
    assert_eq!(f32::from_bits(default_vibrato_depth().to_bits()), 25.0);
    assert_eq!(f32::from_bits(default_vibrato_in().to_bits()), 10.0);
    assert_eq!(f32::from_bits(default_vibrato_out().to_bits()), 10.0);
}

#[test]
fn vibrato_default() {
    let vibrato = Vibrato::default();
    assert_eq!(f32::from_bits(vibrato.length.to_bits()), 0.0);
    assert_eq!(f32::from_bits(vibrato.period.to_bits()), 175.0);
    assert_eq!(f32::from_bits(vibrato.depth.to_bits()), 25.0);
    assert_eq!(f32::from_bits(vibrato.fade_in.to_bits()), 10.0);
    assert_eq!(f32::from_bits(vibrato.out.to_bits()), 10.0);
    assert_eq!(f32::from_bits(vibrato.shift.to_bits()), 0.0);
    assert_eq!(f32::from_bits(vibrato.drift.to_bits()), 0.0);
    assert_eq!(f32::from_bits(vibrato.vol_link.to_bits()), 0.0);
}

#[test]
fn small_type_defaults() {
    assert_eq!(ExpressionType::default(), ExpressionType::Numerical);
    assert_eq!(PitchPointShape::default(), PitchPointShape::Io);
    let pitch = Pitch::default();
    assert!(pitch.data.is_empty());
    assert!(!pitch.snap_first);
    let expression = Expression::default();
    assert_eq!(expression.index, None);
    assert_eq!(expression.abbr, "");
    assert_eq!(expression.value.to_bits(), 0);
    let curve = Curve::default();
    assert_eq!(curve.abbr, "");
    assert!(curve.xs.is_empty());
    assert!(curve.ys.is_empty());
    let phoneme = PhonemeOverride::default();
    assert_eq!(phoneme.index, 0);
    assert_eq!(phoneme.phoneme, None);
    assert_eq!(phoneme.offset, None);
    assert_eq!(phoneme.preutter_delta, None);
    assert_eq!(phoneme.overlap_delta, None);
    let settings = RenderSettings::default();
    assert_eq!(settings.renderer, None);
    assert_eq!(settings.resampler, None);
    assert_eq!(settings.wavtool, None);
}

#[test]
fn expression_type_tokens() {
    assert_eq!(ExpressionType::Numerical.token(), "numerical");
    assert_eq!(ExpressionType::Options.token(), "options");
    assert_eq!(ExpressionType::Curve.token(), "curve");
    for kind in [ExpressionType::Numerical, ExpressionType::Options, ExpressionType::Curve] {
        assert_eq!(ExpressionType::from_token(kind.token()), Some(kind));
    }
    for other in ["", "Numerical", "option", "curves", " curve", "io"] {
        assert_eq!(ExpressionType::from_token(other), None);
    }
}

#[test]
fn pitch_point_shape_tokens() {
    assert_eq!(PitchPointShape::Io.token(), "io");
    assert_eq!(PitchPointShape::L.token(), "l");
    assert_eq!(PitchPointShape::I.token(), "i");
    assert_eq!(PitchPointShape::O.token(), "o");
    for shape in [PitchPointShape::Io, PitchPointShape::L, PitchPointShape::I, PitchPointShape::O]
    {
        assert_eq!(PitchPointShape::from_token(shape.token()), Some(shape));
    }
    for other in ["", "IO", "oi", "li", "x", "i ", "numerical"] {
        assert_eq!(PitchPointShape::from_token(other), None);
    }
}

#[test]
fn copies_are_deep() {
    let mut note = Note {
        position: 1,
        duration: 2,
        tone: 3,
        lyric: String::from("la"),
        pitch: Pitch {
            data: vec![PitchPoint {
                x: Float32::from_bits(1),
                y: Float32::from_bits(2),
                shape: PitchPointShape::L,
            }],
            snap_first: true,
        },
        vibrato: Vibrato::default(),
        phoneme_expressions: vec![Expression {
            index: Some(1),
            abbr: String::from("dyn"),
            value: Float32::from_bits(3),
        }],
        phoneme_overrides: vec![PhonemeOverride {
            index: 4,
            phoneme: Some(String::from("a")),
            offset: Some(0),
            preutter_delta: None,
            overlap_delta: Some(Float32::zero()),
        }],
        phoneme_indexes: vec![5, 6],
    };
    let part = VoicePart {
        name: String::from("p"),
        comment: String::from("c"),
        track_no: 7,
        position: 8,
        notes: vec![note.clone()],
        curves: vec![Curve { abbr: String::from("pitd"), xs: vec![1, 2], ys: vec![3, 4] }],
    };
    let copy = part.clone();
    note.lyric.push('x');
    assert_eq!(format!("{:?}", copy), format!("{:?}", part));
    assert_eq!(copy.notes[0].lyric, "la");
    assert_eq!(copy.notes[0].pitch.data[0].shape, PitchPointShape::L);
    assert_eq!(copy.notes[0].phoneme_overrides[0].phoneme, Some(String::from("a")));
    assert_eq!(copy.notes[0].phoneme_indexes, vec![5, 6]);
    assert_eq!(copy.curves[0].ys, vec![3, 4]);

    let track = Track {
        singer: String::from("s"),
        renderer_settings: RenderSettings {
            renderer: Some(String::from("r")),
            resampler: None,
            wavtool: Some(String::from("w")),
        },
        track_expressions: vec![Expression::default()],
        ..Track::default()
    };
    assert_eq!(format!("{:?}", track.clone()), format!("{:?}", track));

    let wave = WavePart {
        name: String::from("w"),
        comment: String::new(),
        track_no: 1,
        position: 2,
        relative_path: String::from("a.wav"),
        file_duration_ms: Float64::from_bits(3),
        skip_ms: Float64::from_bits(4),
        trim_ms: Float64::from_bits(5),
    };
    assert_eq!(format!("{:?}", wave.clone()), format!("{:?}", wave));
}

#[test]
fn texts_are_compared_by_their_characters() {
    assert!(same_text("", ""));
    assert!(same_text("acc", "acc"));
    assert!(!same_text("acc", "atk"));
    assert!(!same_text("acc", "ac"));
    assert!(!same_text("acc", "Acc"));
    assert!(same_text("\u{3042}", "\u{3042}"));
}

#[test]
fn unset_is_not_zero() {
    let unset = PhonemeOverride::default();
    let zero = PhonemeOverride {
        index: 0,
        phoneme: None,
        offset: Some(0),
        preutter_delta: Some(Float32::zero()),
        overlap_delta: Some(Float32::zero()),
    };
    assert_ne!(unset.offset, zero.offset);
    assert_ne!(unset.preutter_delta, zero.preutter_delta);
    assert_ne!(unset.overlap_delta, zero.overlap_delta);
}

#[test]
fn timing_defaults() {
    let tempo = Tempo::default();
    assert_eq!(tempo.position, 0);
    assert_eq!(f64::from_bits(tempo.bpm.to_bits()), 120.0);
    let signature = TimeSignature::default();
    assert_eq!(signature.bar_position, 0);
    assert_eq!(signature.beat_per_bar, 4);
    assert_eq!(signature.beat_unit, 4);
    assert_eq!(f64::from_bits(ustx::time::default_bpm().to_bits()), 120.0);
    assert_eq!(ustx::time::default_beat_per_bar(), 4);
    assert_eq!(ustx::time::default_beat_unit(), 4);
}

#[test]
fn track_defaults() {
    assert_eq!(default_track_name(), "New Track");
    assert_eq!(default_track_color(), "Blue");
    assert_eq!(default_voice_color_names(), vec![String::new()]);
    let track = Track::default();
    assert_eq!(track.singer, "");
    assert_eq!(track.phonemizer, "");
    assert_eq!(track.renderer_settings.renderer, None);
    assert_eq!(track.track_name, "New Track");
    assert_eq!(track.track_color, "Blue");
    assert!(!track.mute);
    assert!(!track.solo);
    assert_eq!(f64::from_bits(track.volume.to_bits()), 0.0);
    assert_eq!(f64::from_bits(track.pan.to_bits()), 0.0);
    assert!(track.track_expressions.is_empty());
    assert_eq!(track.voice_color_names, vec![String::new()]);
}

#[test]
fn project_defaults() {
    assert_eq!(default_part_name(), "New Part");
    assert_eq!(default_project_name(), "New Project");
    assert_eq!(default_output_dir(), "Vocal");
    assert_eq!(default_cache_dir(), "UCache");
    assert_eq!(default_resolution(), 480);
    assert_eq!(f64::from_bits(default_bpm().to_bits()), 120.0);
    assert_eq!(default_beat_per_bar(), 4);
    assert_eq!(default_beat_unit(), 4);
    assert_eq!(default_exp_secondary(), 1);
    assert_eq!(
        default_exp_selectors(),
        vec!["dyn", "pitd", "clr", "eng", "vel", "vol", "atk", "dec", "gen", "bre"]
    );
    let signatures = default_time_signatures();
    assert_eq!(signatures.len(), 1);
    assert_eq!(signatures[0], TimeSignature::default());
    let tempos = default_tempos();
    assert_eq!(tempos.len(), 1);
    assert_eq!(tempos[0], Tempo::default());
    let tracks = default_tracks();
    assert_eq!(tracks.len(), 1);
    assert_eq!(tracks[0].track_name, "New Track");
}

#[test]
fn selectors_are_padded_in_place() {
    let mut two = vec![String::from("dyn"), String::from("pitd")];
    pad_selectors(&mut two);
    assert_eq!(two, default_exp_selectors());

    let mut own = vec![String::from("x"), String::from("y"), String::from("z")];
    pad_selectors(&mut own);
    assert_eq!(own, vec!["x", "y", "z", "eng", "vel", "vol", "atk", "dec", "gen", "bre"]);

    let mut none: Vec<String> = Vec::new();
    pad_selectors(&mut none);
    assert_eq!(none, default_exp_selectors());

    let mut nine: Vec<String> = (0..9).map(|i| format!("s{}", i)).collect();
    pad_selectors(&mut nine);
    assert_eq!(nine.len(), 10);
    assert_eq!(nine[8], "s8");
    assert_eq!(nine[9], "bre");
}

#[test]
fn long_selector_lists_stay() {
    let mut ten: Vec<String> = (0..10).map(|i| format!("s{}", i)).collect();
    let before = ten.clone();
    pad_selectors(&mut ten);
    assert_eq!(ten, before);

    let mut twelve: Vec<String> = (0..12).map(|i| format!("s{}", i)).collect();
    let before = twelve.clone();
    pad_selectors(&mut twelve);
    assert_eq!(twelve, before);
}

#[test]
fn lyric_markers_are_replaced_like_a_text_replacement() {
    let samples = [
        "...ka...ta",
        "...",
        "....",
        ".....",
        "......",
        ".......",
        "...a",
        "...a..b...c....",
        "...\u{3042}...\u{3044}",
        "... ...",
    ];
    for sample in samples {
        assert_eq!(rewrite_lyric(sample), sample.replace("...", "+"), "{:?}", sample);
    }
    assert_eq!(rewrite_lyric("...ka...ta"), "+ka+ta");
    assert_eq!(rewrite_lyric("...."), "+.");
    assert_eq!(rewrite_lyric("......"), "++");
}

#[test]
fn lyrics_without_a_leading_marker_stay() {
    for sample in ["", "a", "ka...ta", "..", ".", "a...", " ...a", "+ka", "\u{3042}"] {
        assert_eq!(rewrite_lyric(sample), sample, "{:?}", sample);
    }
}

#[test]
fn expressions_are_renamed_by_abbreviation() {
    let mut expressions = vec![
        Expression { index: Some(0), abbr: String::from("acc"), value: Float32::from_bits(7) },
        Expression { index: None, abbr: String::from("dyn"), value: Float32::from_bits(8) },
        Expression { index: Some(2), abbr: String::from("acc"), value: Float32::from_bits(9) },
        Expression { index: Some(3), abbr: String::from("ACC"), value: Float32::from_bits(1) },
        Expression { index: Some(4), abbr: String::from("accx"), value: Float32::from_bits(2) },
    ];
    rename_expressions(&mut expressions, "acc", "atk");
    let abbrs: Vec<&str> = expressions.iter().map(|e| e.abbr.as_str()).collect();
    assert_eq!(abbrs, vec!["atk", "dyn", "atk", "ACC", "accx"]);
    let indexes: Vec<Option<i32>> = expressions.iter().map(|e| e.index).collect();
    assert_eq!(indexes, vec![Some(0), None, Some(2), Some(3), Some(4)]);
    let values: Vec<u32> = expressions.iter().map(|e| e.value.to_bits()).collect();
    assert_eq!(values, vec![7, 8, 9, 1, 2]);
}

#[test]
fn expression_map_holds_each_key_once() {
    let mut map = ExpressionMap::new();
    assert!(map.is_empty());
    assert_eq!(map.len(), 0);
    assert!(map.get("dyn").is_none());
    assert!(!map.contains_key("dyn"));

    assert!(map.insert(String::from("dyn"), descriptor("dynamics", "dyn")).is_none());
    assert!(map.insert(String::from("acc"), descriptor("accent", "acc")).is_none());
    assert_eq!(map.len(), 2);
    assert!(!map.is_empty());
    assert!(map.contains_key("dyn"));
    assert_eq!(map.get("acc").map(|d| d.name.as_str()), Some("accent"));

    let previous = map.insert(String::from("dyn"), descriptor("other", "dyn"));
    assert_eq!(previous.map(|d| d.name), Some(String::from("dynamics")));
    assert_eq!(map.len(), 2);
    assert_eq!(map.get("dyn").map(|d| d.name.as_str()), Some("other"));

    let removed = map.remove("acc");
    assert_eq!(removed.map(|d| d.name), Some(String::from("accent")));
    assert!(map.remove("acc").is_none());
    assert!(!map.contains_key("acc"));
    assert_eq!(map.len(), 1);
    assert_eq!(map.entries().len(), 1);
    assert_eq!(map.entries()[0].0, "dyn");
}

#[test]
fn expression_map_from_entries_lets_the_last_entry_count() {
    let map = ExpressionMap::from_entries(vec![
        (String::from("a"), descriptor("first", "a")),
        (String::from("b"), descriptor("second", "b")),
        (String::from("a"), descriptor("third", "a")),
    ]);
    assert_eq!(map.len(), 2);
    assert_eq!(map.get("a").map(|d| d.name.as_str()), Some("third"));
    assert_eq!(map.get("b").map(|d| d.name.as_str()), Some("second"));
    assert!(ExpressionMap::from_entries(Vec::new()).is_empty());
}

#[test]
fn expression_map_clone_is_deep() {
    let mut map = ExpressionMap::new();
    let mut full = descriptor("tone", "t");
    full.flag = Some(String::from("T"));
    full.is_flag = true;
    full.kind = ExpressionType::Options;
    full.options = vec![String::from("x"), String::from("y")];
    map.insert(String::from("t"), full);
    let mut copy = map.clone();
    copy.remove("t");
    assert!(copy.is_empty());
    let kept = map.get("t").expect("still there");
    assert_eq!(kept.name, "tone");
    assert_eq!(kept.flag, Some(String::from("T")));
    assert!(kept.is_flag);
    assert_eq!(kept.kind, ExpressionType::Options);
    assert_eq!(kept.options, vec!["x", "y"]);
    let twin = kept.clone();
    assert_eq!(twin.abbr, "t");
    assert_eq!(twin.max.to_bits(), 100.0f32.to_bits());
    assert_eq!(twin.options, vec!["x", "y"]);
}

#[test]
fn error_messages() {
    assert_eq!(
        Error::unsupported_version(String::from("0.8")),
        Error::UnsupportedVersion(String::from("0.8"))
    );
    assert_eq!(
        Error::unsupported_version(String::from("0.8")).to_string(),
        "unsupported ustx version: 0.8"
    );
    assert_eq!(Error::Yaml(String::from("bad indent")).to_string(), "yaml error: bad indent");
    assert_eq!(Error::MissingDocument.to_string(), "missing document");
}
