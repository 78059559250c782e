//! Configuration builder: translates a structured option set from the
//! host runtime into a validated engine configuration. The builder
//! performs no I/O — it only validates and stores; the engine applies
//! its own defaults for any option left absent. Unrecognized keys are
//! rejected with a typed error naming the key, never silently ignored.

use vstd::prelude::*;
use vstd::string::StringExecFns;

use crate::errors::ConfigError;

verus! {

/// A host-supplied option value: an unsigned integer, a flag, or a
/// piece of text.
#[derive(Debug, Clone, PartialEq, Eq)]
pub enum OptionValue {
    UInt(u64),
    Bool(bool),
    Text(String),
}

/// One entry of the host-supplied option set.
#[derive(Debug, Clone, PartialEq, Eq)]
pub struct ConfigOption {
    pub key: String,
    pub value: OptionValue,
}

/// An immutable, validated engine configuration: the target path plus
/// the tuning options that were explicitly set. `None` means the
/// engine's own documented default applies.
#[derive(Debug, Clone, PartialEq, Eq)]
pub struct DbConfig {
    /// Filesystem path of the database (required).
    pub path: String,
    /// Maximum page-cache size in bytes.
    pub cache_capacity: Option<u64>,
    /// Interval in milliseconds between automatic flushes.
    pub flush_every_ms: Option<u64>,
    /// Whether on-disk compression is enabled.
    pub use_compression: Option<bool>,
    /// Compression level; the engine accepts 1 through 22.
    pub compression_factor: Option<u64>,
    /// Segment size in bytes for the engine's log; a power of two
    /// between 256 bytes and 16 MiB.
    pub segment_size: Option<u64>,
    /// Open exclusively, failing if the database already exists.
    pub create_new: Option<bool>,
    /// Delete the database when the last reference is dropped.
    pub temporary: Option<bool>,
    /// Print a recovery/performance profile when the configuration is
    /// dropped.
    pub print_profile_on_drop: Option<bool>,
}

impl DbConfig {
    /// A validated configuration: every explicitly set option lies in
    /// the range the engine accepts. The builder establishes this; the
    /// open operation relies on it.
    pub open spec fn wf(self) -> bool {
        &&& self.compression_factor matches Some(f) ==> 1 <= f <= 22
        &&& self.segment_size matches Some(s) ==> valid_segment_size(s)
    }
}

/// The segment sizes the engine accepts: a power of two between 256
/// bytes and 16 MiB.
pub open spec fn valid_segment_size(s: u64) -> bool {
    &&& 256 <= s <= 16777216
    &&& s & ((s - 1) as u64) == 0
}

/// The option keys this builder recognizes.
pub open spec fn recognized_key(k: Seq<char>) -> bool {
    ||| k == "path"@
    ||| k == "cache_capacity"@
    ||| k == "flush_every_ms"@
    ||| k == "use_compression"@
    ||| k == "compression_factor"@
    ||| k == "segment_size"@
    ||| k == "create_new"@
    ||| k == "temporary"@
    ||| k == "print_profile_on_drop"@
}

/// The value shape each recognized key demands.
pub open spec fn right_type(k: Seq<char>, v: OptionValue) -> bool {
    if k == "path"@ {
        v is Text
    } else if k == "cache_capacity"@ {
        v is UInt
    } else if k == "flush_every_ms"@ {
        v is UInt
    } else if k == "use_compression"@ {
        v is Bool
    } else if k == "compression_factor"@ {
        v is UInt
    } else if k == "segment_size"@ {
        v is UInt
    } else if k == "create_new"@ {
        v is Bool
    } else if k == "temporary"@ {
        v is Bool
    } else if k == "print_profile_on_drop"@ {
        v is Bool
    } else {
        false
    }
}

/// The value ranges the engine accepts: the compression level runs
/// from 1 through 22, and the segment size must be a power of two
/// between 256 bytes and 16 MiB.
pub open spec fn in_range(k: Seq<char>, v: OptionValue) -> bool {
    if k == "compression_factor"@ {
        v is UInt ==> 1 <= v->UInt_0 <= 22
    } else if k == "segment_size"@ {
        v is UInt ==> valid_segment_size(v->UInt_0)
    } else {
        true
    }
}

/// A single option entry passes validation.
pub open spec fn well_formed_option(k: Seq<char>, v: OptionValue) -> bool {
    recognized_key(k) && right_type(k, v) && in_range(k, v)
}

/// A whole option set passes validation: every entry is recognized,
/// well-typed and in range, and the required path is present.
pub open spec fn valid_options(opts: Seq<ConfigOption>) -> bool {
    &&& forall|i: int|
        0 <= i < opts.len() ==> well_formed_option(
            (#[trigger] opts[i]).key@,
            opts[i].value,
        )
    &&& exists|i: int| 0 <= i < opts.len() && (#[trigger] opts[i]).key@ == "path"@
}

/// The value the last entry with the given key supplies, if any:
/// a later entry for the same key overrides an earlier one.
pub open spec fn last_value(opts: Seq<ConfigOption>, k: Seq<char>) -> Option<OptionValue>
    decreases opts.len(),
{
    if opts.len() == 0 {
        None
    } else if opts.last().key@ == k {
        Some(opts.last().value)
    } else {
        last_value(opts.drop_last(), k)
    }
}

/// The integer a key's last entry supplies, if it was an integer.
pub open spec fn uint_field(o: Option<OptionValue>) -> Option<u64> {
    match o {
        Some(OptionValue::UInt(v)) => Some(v),
        _ => None,
    }
}

/// The flag a key's last entry supplies, if it was a flag.
pub open spec fn bool_field(o: Option<OptionValue>) -> Option<bool> {
    match o {
        Some(OptionValue::Bool(b)) => Some(b),
        _ => None,
    }
}

/// The text a key's last entry supplies, if it was text.
pub open spec fn text_field(o: Option<OptionValue>) -> Option<String> {
    match o {
        Some(OptionValue::Text(s)) => Some(s),
        _ => None,
    }
}

/// The nine recognized keys are pairwise distinct.
proof fn lemma_keys_distinct()
    ensures
        "path"@ != "cache_capacity"@,
        "path"@ != "flush_every_ms"@,
        "path"@ != "use_compression"@,
        "path"@ != "compression_factor"@,
        "path"@ != "segment_size"@,
        "path"@ != "create_new"@,
        "path"@ != "temporary"@,
        "path"@ != "print_profile_on_drop"@,
        "cache_capacity"@ != "flush_every_ms"@,
        "cache_capacity"@ != "use_compression"@,
        "cache_capacity"@ != "compression_factor"@,
        "cache_capacity"@ != "segment_size"@,
        "cache_capacity"@ != "create_new"@,
        "cache_capacity"@ != "temporary"@,
        "cache_capacity"@ != "print_profile_on_drop"@,
        "flush_every_ms"@ != "use_compression"@,
        "flush_every_ms"@ != "compression_factor"@,
        "flush_every_ms"@ != "segment_size"@,
        "flush_every_ms"@ != "create_new"@,
        "flush_every_ms"@ != "temporary"@,
        "flush_every_ms"@ != "print_profile_on_drop"@,
        "use_compression"@ != "compression_factor"@,
        "use_compression"@ != "segment_size"@,
        "use_compression"@ != "create_new"@,
        "use_compression"@ != "temporary"@,
        "use_compression"@ != "print_profile_on_drop"@,
        "compression_factor"@ != "segment_size"@,
        "compression_factor"@ != "create_new"@,
        "compression_factor"@ != "temporary"@,
        "compression_factor"@ != "print_profile_on_drop"@,
        "segment_size"@ != "create_new"@,
        "segment_size"@ != "temporary"@,
        "segment_size"@ != "print_profile_on_drop"@,
        "create_new"@ != "temporary"@,
        "create_new"@ != "print_profile_on_drop"@,
        "temporary"@ != "print_profile_on_drop"@,
{
    reveal_strlit("path");
    reveal_strlit("cache_capacity");
    reveal_strlit("flush_every_ms");
    reveal_strlit("use_compression");
    reveal_strlit("compression_factor");
    reveal_strlit("segment_size");
    reveal_strlit("create_new");
    reveal_strlit("temporary");
    reveal_strlit("print_profile_on_drop");
    assert("path"@.len() == 4);
    assert("cache_capacity"@.len() == 14);
    assert("flush_every_ms"@.len() == 14);
    assert("use_compression"@.len() == 15);
    assert("compression_factor"@.len() == 18);
    assert("segment_size"@.len() == 12);
    assert("create_new"@.len() == 10);
    assert("temporary"@.len() == 9);
    assert("print_profile_on_drop"@.len() == 21);
    assert("cache_capacity"@[0] == 'c');
    assert("flush_every_ms"@[0] == 'f');
}

/// Extending the option set by one entry changes a key's last value
/// exactly when the new entry carries that key.
proof fn lemma_last_value_push(s: Seq<ConfigOption>, e: ConfigOption, k: Seq<char>)
    ensures
        last_value(s.push(e), k) == if e.key@ == k {
            Some(e.value)
        } else {
            last_value(s, k)
        },
{
    assert(s.push(e).drop_last() =~= s);
    assert(s.push(e).last() == e);
}

/// A key has no last value exactly when no entry carries it.
proof fn lemma_last_value_none(s: Seq<ConfigOption>, k: Seq<char>)
    ensures
        last_value(s, k) is None <==> forall|i: int|
            0 <= i < s.len() ==> (#[trigger] s[i]).key@ != k,
    decreases s.len(),
{
    if s.len() > 0 {
        lemma_last_value_none(s.drop_last(), k);
        assert forall|i: int| 0 <= i < s.len() - 1 implies #[trigger] s[i] == s.drop_last()[i] by {}
    }
}

/// A key's last value, when present, is the value of some entry that
/// carries the key.
proof fn lemma_last_value_some(s: Seq<ConfigOption>, k: Seq<char>)
    ensures
        last_value(s, k) matches Some(v) ==> exists|i: int|
            0 <= i < s.len() && (#[trigger] s[i]).key@ == k && s[i].value == v,
    decreases s.len(),
{
    if s.len() > 0 {
        if s.last().key@ == k {
            assert(s[s.len() - 1] == s.last());
        } else {
            lemma_last_value_some(s.drop_last(), k);
            if last_value(s, k) is Some {
                let v = last_value(s, k)->Some_0;
                let i = choose|i: int|
                    0 <= i < s.drop_last().len() && (#[trigger] s.drop_last()[i]).key@ == k
                        && s.drop_last()[i].value == v;
                assert(s[i] == s.drop_last()[i]);
            }
        }
    }
}

/// Builds a validated configuration from a host-supplied option set.
/// Succeeds exactly on valid option sets; on success every field holds
/// the last value the set supplied for its key, or `None` where the
/// engine default is to apply. On failure the typed error names what
/// offended. No I/O is performed either way.
pub fn config_new(opts: &Vec<ConfigOption>) -> (r: Result<DbConfig, ConfigError>)
    ensures
        r is Ok <==> valid_options(opts@),
        r matches Ok(c) ==> c.wf(),
        r matches Ok(c) ==> {
            &&& text_field(last_value(opts@, "path"@)) == Some(c.path)
            &&& c.cache_capacity == uint_field(last_value(opts@, "cache_capacity"@))
            &&& c.flush_every_ms == uint_field(last_value(opts@, "flush_every_ms"@))
            &&& c.use_compression == bool_field(last_value(opts@, "use_compression"@))
            &&& c.compression_factor == uint_field(last_value(opts@, "compression_factor"@))
            &&& c.segment_size == uint_field(last_value(opts@, "segment_size"@))
            &&& c.create_new == bool_field(last_value(opts@, "create_new"@))
            &&& c.temporary == bool_field(last_value(opts@, "temporary"@))
            &&& c.print_profile_on_drop == bool_field(last_value(opts@, "print_profile_on_drop"@))
        },
        (exists|i: int| 0 <= i < opts@.len() && !recognized_key((#[trigger] opts@[i]).key@))
            ==> r is Err && r->Err_0 is UnknownKey,
        r matches Err(ConfigError::UnknownKey(k)) ==> exists|i: int|
            0 <= i < opts@.len() && (#[trigger] opts@[i]).key@ == k@ && !recognized_key(k@),
        r matches Err(ConfigError::WrongType(k)) ==> exists|i: int|
            0 <= i < opts@.len() && (#[trigger] opts@[i]).key@ == k@ && recognized_key(k@)
                && !right_type(k@, opts@[i].value),
        r matches Err(ConfigError::OutOfRange(k)) ==> exists|i: int|
            0 <= i < opts@.len() && (#[trigger] opts@[i]).key@ == k@ && recognized_key(k@)
                && !in_range(k@, opts@[i].value),
        r matches Err(ConfigError::MissingPath) ==> forall|i: int|
            0 <= i < opts@.len() ==> (#[trigger] opts@[i]).key@ != "path"@,
{
    let key_path: String = String::from_str("path");
    let key_cache: String = String::from_str("cache_capacity");
    let key_flush: String = String::from_str("flush_every_ms");
    let key_compress: String = String::from_str("use_compression");
    let key_factor: String = String::from_str("compression_factor");
    let key_segment: String = String::from_str("segment_size");
    let key_create: String = String::from_str("create_new");
    let key_temp: String = String::from_str("temporary");
    let key_profile: String = String::from_str("print_profile_on_drop");

    let mut scan: usize = 0;
    while scan < opts.len()
        invariant
            scan <= opts@.len(),
            key_path@ == "path"@,
            key_cache@ == "cache_capacity"@,
            key_flush@ == "flush_every_ms"@,
            key_compress@ == "use_compression"@,
            key_factor@ == "compression_factor"@,
            key_segment@ == "segment_size"@,
            key_create@ == "create_new"@,
            key_temp@ == "temporary"@,
            key_profile@ == "print_profile_on_drop"@,
            forall|j: int| 0 <= j < scan ==> recognized_key((#[trigger] opts@[j]).key@),
        decreases opts@.len() - scan,
    {
        let opt = &opts[scan];
        let known = opt.key == key_path || opt.key == key_cache || opt.key == key_flush
            || opt.key == key_compress || opt.key == key_factor || opt.key == key_segment
            || opt.key == key_create || opt.key == key_temp || opt.key == key_profile;
        if !known {
            return Err(ConfigError::UnknownKey(opt.key.clone()));
        }
        scan = scan + 1;
    }

    let mut path: Option<String> = None;
    let mut cache_capacity: Option<u64> = None;
    let mut flush_every_ms: Option<u64> = None;
    let mut use_compression: Option<bool> = None;
    let mut compression_factor: Option<u64> = None;
    let mut segment_size: Option<u64> = None;
    let mut create_new: Option<bool> = None;
    let mut temporary: Option<bool> = None;
    let mut print_profile_on_drop: Option<bool> = None;

    let mut i: usize = 0;
    while i < opts.len()
        invariant
            i <= opts@.len(),
            key_path@ == "path"@,
            key_cache@ == "cache_capacity"@,
            key_flush@ == "flush_every_ms"@,
            key_compress@ == "use_compression"@,
            key_factor@ == "compression_factor"@,
            key_segment@ == "segment_size"@,
            key_create@ == "create_new"@,
            key_temp@ == "temporary"@,
            key_profile@ == "print_profile_on_drop"@,
            forall|j: int| 0 <= j < opts@.len() ==> recognized_key((#[trigger] opts@[j]).key@),
            forall|j: int|
                0 <= j < i ==> well_formed_option(
                    (#[trigger] opts@[j]).key@,
                    opts@[j].value,
                ),
            path == text_field(last_value(opts@.subrange(0, i as int), "path"@)),
            cache_capacity == uint_field(
                last_value(opts@.subrange(0, i as int), "cache_capacity"@),
            ),
            flush_every_ms == uint_field(
                last_value(opts@.subrange(0, i as int), "flush_every_ms"@),
            ),
            use_compression == bool_field(
                last_value(opts@.subrange(0, i as int), "use_compression"@),
            ),
            compression_factor == uint_field(
                last_value(opts@.subrange(0, i as int), "compression_factor"@),
            ),
            segment_size == uint_field(last_value(opts@.subrange(0, i as int), "segment_size"@)),
            create_new == bool_field(last_value(opts@.subrange(0, i as int), "create_new"@)),
            temporary == bool_field(last_value(opts@.subrange(0, i as int), "temporary"@)),
            print_profile_on_drop == bool_field(
                last_value(opts@.subrange(0, i as int), "print_profile_on_drop"@),
            ),
        decreases opts@.len() - i,
    {
        proof {
            lemma_keys_distinct();
        }
        let opt = &opts[i];
        let is_path = opt.key == key_path;
        let is_cache = opt.key == key_cache;
        let is_flush = opt.key == key_flush;
        let is_compress = opt.key == key_compress;
        let is_factor = opt.key == key_factor;
        let is_segment = opt.key == key_segment;
        let is_create = opt.key == key_create;
        let is_temp = opt.key == key_temp;
        let is_profile = opt.key == key_profile;

        if is_path {
            match &opt.value {
                OptionValue::Text(s) => {
                    path = Some(s.clone());
                },
                _ => {
                    return Err(ConfigError::WrongType(opt.key.clone()));
                },
            }
        }
        if is_cache {
            match &opt.value {
                OptionValue::UInt(v) => {
                    cache_capacity = Some(*v);
                },
                _ => {
                    return Err(ConfigError::WrongType(opt.key.clone()));
                },
            }
        }
        if is_flush {
            match &opt.value {
                OptionValue::UInt(v) => {
                    flush_every_ms = Some(*v);
                },
                _ => {
                    return Err(ConfigError::WrongType(opt.key.clone()));
                },
            }
        }
        if is_compress {
            match &opt.value {
                OptionValue::Bool(b) => {
                    use_compression = Some(*b);
                },
                _ => {
                    return Err(ConfigError::WrongType(opt.key.clone()));
                },
            }
        }
        if is_factor {
            match &opt.value {
                OptionValue::UInt(v) => {
                    if 1 <= *v && *v <= 22 {
                        compression_factor = Some(*v);
                    } else {
                        return Err(ConfigError::OutOfRange(opt.key.clone()));
                    }
                },
                _ => {
                    return Err(ConfigError::WrongType(opt.key.clone()));
                },
            }
        }
        if is_segment {
            match &opt.value {
                OptionValue::UInt(v) => {
                    if 256 <= *v && *v <= 16777216 && *v & (*v - 1) == 0 {
                        segment_size = Some(*v);
                    } else {
                        return Err(ConfigError::OutOfRange(opt.key.clone()));
                    }
                },
                _ => {
                    return Err(ConfigError::WrongType(opt.key.clone()));
                },
            }
        }
        if is_create {
            match &opt.value {
                OptionValue::Bool(b) => {
                    create_new = Some(*b);
                },
                _ => {
                    return Err(ConfigError::WrongType(opt.key.clone()));
                },
            }
        }
        if is_temp {
            match &opt.value {
                OptionValue::Bool(b) => {
                    temporary = Some(*b);
                },
                _ => {
                    return Err(ConfigError::WrongType(opt.key.clone()));
                },
            }
        }
        if is_profile {
            match &opt.value {
                OptionValue::Bool(b) => {
                    print_profile_on_drop = Some(*b);
                },
                _ => {
                    return Err(ConfigError::WrongType(opt.key.clone()));
                },
            }
        }
        proof {
            let prefix = opts@.subrange(0, i as int);
            let e = opts@[i as int];
            assert(opts@.subrange(0, i as int + 1) =~= prefix.push(e));
            lemma_last_value_push(prefix, e, "path"@);
            lemma_last_value_push(prefix, e, "cache_capacity"@);
            lemma_last_value_push(prefix, e, "flush_every_ms"@);
            lemma_last_value_push(prefix, e, "use_compression"@);
            lemma_last_value_push(prefix, e, "compression_factor"@);
            lemma_last_value_push(prefix, e, "segment_size"@);
            lemma_last_value_push(prefix, e, "create_new"@);
            lemma_last_value_push(prefix, e, "temporary"@);
            lemma_last_value_push(prefix, e, "print_profile_on_drop"@);
        }
        i = i + 1;
    }
    proof {
        assert(opts@.subrange(0, opts@.len() as int) =~= opts@);
        lemma_keys_distinct();
        lemma_last_value_none(opts@, "path"@);
        lemma_last_value_some(opts@, "path"@);
        lemma_last_value_some(opts@, "compression_factor"@);
        lemma_last_value_some(opts@, "segment_size"@);
    }
    match path {
        Some(p) => Ok(
            DbConfig {
                path: p,
                cache_capacity,
                flush_every_ms,
                use_compression,
                compression_factor,
                segment_size,
                create_new,
                temporary,
                print_profile_on_drop,
            },
        ),
        None => Err(ConfigError::MissingPath),
    }
}

} // verus!
