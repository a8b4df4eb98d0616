//! What the database manager shows about the stores on disk: the formatted
//! entry for one database file, human-readable sizes, and path normalization.
//! Reading the directory itself is file I/O and stays with the caller.
use vstd::prelude::*;
use crate::strutil::{dec_digit, dec_of};

verus! {

/// One database file as shown to the caller.
pub struct DatabaseInfo {
    /// Nombre de la base de datos (sin extensión)
    pub name: String,
    /// Estado actual: "En uso" o "Inactivo"
    pub status: String,
    /// Tamaño del archivo formateado automáticamente (ej: "512 KB", "10 MB")
    pub size: String,
    /// Fecha de última modificación (YYYY-MM-DD)
    pub last_mod: String,
    /// Ruta completa del archivo
    pub path: String,
}

/// The application's global state: where the database files live, and which
/// one is active.
pub struct AppState {
    /// Directorio donde se almacenan las bases de datos
    pub db_dir: String,
    /// Base de datos actualmente activa
    pub active_db: Option<String>,
}

/// The unit label for a power of 1024.
pub open spec fn size_unit(k: nat) -> Seq<char> {
    if k == 0 {
        "B"@
    } else if k == 1 {
        "KB"@
    } else if k == 2 {
        "MB"@
    } else if k == 3 {
        "GB"@
    } else {
        "TB"@
    }
}

/// The unit a byte count is shown in: the largest of the five units that
/// keeps the shown value at least one.
pub open spec fn unit_index(bytes: nat) -> nat {
    if bytes < 1024 {
        0
    } else if bytes < 1048576 {
        1
    } else if bytes < 1073741824 {
        2
    } else if bytes < 1099511627776 {
        3
    } else {
        4
    }
}

/// The divisor of a unit: 1024 to its power.
pub open spec fn unit_divisor(k: nat) -> nat {
    if k == 0 {
        1
    } else if k == 1 {
        1024
    } else if k == 2 {
        1048576
    } else if k == 3 {
        1073741824
    } else {
        1099511627776
    }
}

/// Two decimal digits, the tens digit first.
pub open spec fn two_digits(f: nat) -> Seq<char> {
    seq![dec_digit(f / 10), dec_digit(f % 10)]
}

/// The human-readable form of a byte count: plain bytes without decimals;
/// larger sizes scaled to their unit and rounded to the nearest — halves
/// rounded up — with two decimals below ten and one decimal from ten up.
pub open spec fn formatted_size(bytes: nat) -> Seq<char> {
    let k = unit_index(bytes);
    if k == 0 {
        dec_of(bytes) + " B"@
    } else {
        let den = unit_divisor(k);
        if bytes < 10 * den {
            let v = (bytes * 100 + den / 2) / den;
            dec_of(v / 100) + seq!['.'] + two_digits(v % 100) + seq![' '] + size_unit(k)
        } else {
            let v = (bytes * 10 + den / 2) / den;
            dec_of(v / 10) + seq!['.'] + seq![dec_digit(v % 10)] + seq![' '] + size_unit(k)
        }
    }
}

/// Formats a byte count for display.
pub fn format_file_size(bytes: u64) -> (r: String)
    ensures
        r@ == formatted_size(bytes as nat),
{
    let k: u64 = if bytes < 1024 {
        0
    } else if bytes < 1048576 {
        1
    } else if bytes < 1073741824 {
        2
    } else if bytes < 1099511627776 {
        3
    } else {
        4
    };
    let mut out = String::new();
    if k == 0 {
        let d = crate::strutil::u64_to_string(bytes);
        out.append(d.as_str());
        out.append(" B");
        proof {
            assert(out@ =~= formatted_size(bytes as nat));
        }
        return out;
    }
    let den: u64 = if k == 1 {
        1024
    } else if k == 2 {
        1048576
    } else if k == 3 {
        1073741824
    } else {
        1099511627776
    };
    if bytes < 10 * den {
        let v: u64 = (bytes * 100 + den / 2) / den;
        let whole = crate::strutil::u64_to_string(v / 100);
        out.append(whole.as_str());
        crate::strutil::push_char(&mut out, '.');
        let f = v % 100;
        crate::strutil::push_char(&mut out, digit_char_u64(f / 10));
        crate::strutil::push_char(&mut out, digit_char_u64(f % 10));
    } else {
        let big: u128 = ((bytes as u128) * 10 + (den as u128) / 2) / (den as u128);
        proof {
            let b = bytes as int;
            let d = den as int;
            assert(10 * b + d / 2 < d * 0x10000000000000000) by (nonlinear_arith)
                requires
                    b < 0x10000000000000000,
                    d >= 1024,
            ;
            vstd::arithmetic::div_mod::lemma_multiply_divide_lt(
                10 * b + d / 2,
                d,
                0x10000000000000000,
            );
        }
        let v: u64 = big as u64;
        let whole = crate::strutil::u64_to_string(v / 10);
        out.append(whole.as_str());
        crate::strutil::push_char(&mut out, '.');
        crate::strutil::push_char(&mut out, digit_char_u64(v % 10));
    }
    crate::strutil::push_char(&mut out, ' ');
    if k == 1 {
        out.append("KB");
    } else if k == 2 {
        out.append("MB");
    } else if k == 3 {
        out.append("GB");
    } else {
        out.append("TB");
    }
    proof {
        assert(out@ =~= formatted_size(bytes as nat));
    }
    out
}

fn digit_char_u64(d: u64) -> (c: char)
    requires
        d < 10,
    ensures
        c == dec_digit(d as nat),
{
    match d {
        0 => '0',
        1 => '1',
        2 => '2',
        3 => '3',
        4 => '4',
        5 => '5',
        6 => '6',
        7 => '7',
        8 => '8',
        _ => '9',
    }
}

/// The verbatim prefix removed wherever it occurs, left to right.
pub open spec fn strip_verbatim(s: Seq<char>) -> Seq<char>
    decreases s.len(),
{
    if s.len() >= 4 && s.subrange(0, 4) == seq!['\\', '\\', '?', '\\'] {
        strip_verbatim(s.skip(4))
    } else if s.len() == 0 {
        Seq::empty()
    } else {
        seq![s[0]] + strip_verbatim(s.skip(1))
    }
}

/// Every backslash turned into a forward slash.
pub open spec fn slashified(s: Seq<char>) -> Seq<char> {
    s.map_values(|c: char| if c == '\\' { '/' } else { c })
}

/// Normalizes a path the way the platform file browser expects: the verbatim
/// prefix removed and every backslash turned into a forward slash. On
/// platforms whose paths carry no backslashes this is the identity.
pub fn normalize_path(path: &str) -> (r: String)
    ensures
        r@ == slashified(strip_verbatim(path@)),
{
    let n = path.unicode_len();
    let mut stripped: Vec<char> = Vec::new();
    let mut i: usize = 0;
    proof {
        assert(path@.skip(0) =~= path@);
    }
    while i < n
        invariant
            n == path@.len(),
            i <= n,
            strip_verbatim(path@) == stripped@ + strip_verbatim(path@.skip(i as int)),
        decreases n - i,
    {
        let ghost pre = stripped@;
        let rest = n - i;
        let is_verbatim = rest >= 4 && path.get_char(i) == '\\' && path.get_char(i + 1) == '\\'
            && path.get_char(i + 2) == '?' && path.get_char(i + 3) == '\\';
        if is_verbatim {
            proof {
                assert(path@.skip(i as int).subrange(0, 4) =~= seq!['\\', '\\', '?', '\\']);
                assert(path@.skip(i as int).skip(4) =~= path@.skip(i + 4));
            }
            i = i + 4;
        } else {
            let c = path.get_char(i);
            stripped.push(c);
            proof {
                let tail = path@.skip(i as int);
                assert(tail.len() > 0 && tail[0] == c);
                if tail.len() >= 4 {
                    assert(tail.subrange(0, 4) != seq!['\\', '\\', '?', '\\']) by {
                        if tail.subrange(0, 4) == seq!['\\', '\\', '?', '\\'] {
                            assert(tail.subrange(0, 4)[0] == tail[0]);
                            assert(tail.subrange(0, 4)[1] == tail[1]);
                            assert(tail.subrange(0, 4)[2] == tail[2]);
                            assert(tail.subrange(0, 4)[3] == tail[3]);
                        }
                    };
                }
                assert(tail.skip(1) =~= path@.skip(i + 1));
                assert(stripped@ =~= pre + seq![c]);
            }
            i = i + 1;
        }
    }
    proof {
        assert(path@.skip(n as int) =~= Seq::<char>::empty());
        assert(strip_verbatim(path@) == stripped@);
    }
    let mut out = String::new();
    let mut j: usize = 0;
    while j < stripped.len()
        invariant
            j <= stripped@.len(),
            out@ == slashified(stripped@.subrange(0, j as int)),
        decreases stripped@.len() - j,
    {
        let c = stripped[j];
        crate::strutil::push_char(&mut out, if c == '\\' {
            '/'
        } else {
            c
        });
        proof {
            assert(slashified(stripped@.subrange(0, j + 1)) =~= slashified(
                stripped@.subrange(0, j as int),
            ) + seq![if stripped@[j as int] == '\\' {
                '/'
            } else {
                stripped@[j as int]
            }]);
        }
        j = j + 1;
    }
    proof {
        assert(stripped@.subrange(0, stripped@.len() as int) =~= stripped@);
    }
    out
}

/// Builds the display entry for one database file: the status text from
/// whether it is the active one, and the size formatted for humans.
pub fn make_database_info(
    name: String,
    is_active: bool,
    size_bytes: u64,
    last_mod: String,
    path: String,
) -> (r: DatabaseInfo)
    ensures
        r.name@ == name@,
        r.status@ == (if is_active {
            "En uso"@
        } else {
            "Inactivo"@
        }),
        r.size@ == formatted_size(size_bytes as nat),
        r.last_mod@ == last_mod@,
        r.path@ == path@,
{
    let mut status = String::new();
    if is_active {
        status.append("En uso");
    } else {
        status.append("Inactivo");
    }
    DatabaseInfo { name, status, size: format_file_size(size_bytes), last_mod, path }
}

} // verus!
