//! The system-information decision tables: which icon and module kind the
//! renderer configuration gets for the detected operating system, desktop
//! environment / window manager, and shell.
//!
//! Each lookup is a first-match scan over a fixed table, against
//! already-lowercased detection strings; the surrounding tool turns the
//! results into renderer modules.

use vstd::prelude::*;
use vstd::string::StringExecFns;

use crate::text::spec_str_contains;
use crate::text::spec_str_ends_with;
use crate::text::str_contains;
use crate::text::str_ends_with;

verus! {

/// The icon for the first operating-system name that occurs in `os`
/// (lower case), or the generic default.
pub open spec fn spec_os_icon(os: Seq<char>) -> Seq<char> {
    if spec_str_contains(os, "nixos"@) {
        "\u{f313}"@
    } else if spec_str_contains(os, "kali"@) {
        "\u{f327}"@
    } else if spec_str_contains(os, "rocky"@) {
        "\u{f32b}"@
    } else if spec_str_contains(os, "mint"@) {
        "\u{f08ed}"@
    } else if spec_str_contains(os, "alpine"@) {
        "\u{f300}"@
    } else if spec_str_contains(os, "archcraft"@) {
        "\u{f345}"@
    } else if spec_str_contains(os, "archlabs"@) {
        "\u{f31e}"@
    } else if spec_str_contains(os, "arcolinux"@) {
        "\u{f346}"@
    } else if spec_str_contains(os, "artix"@) {
        "\u{f31f}"@
    } else if spec_str_contains(os, "centos"@) {
        "\u{f304}"@
    } else if spec_str_contains(os, "coreos"@) {
        "\u{f305}"@
    } else if spec_str_contains(os, "crystal"@) {
        "\u{f348}"@
    } else if spec_str_contains(os, "debian"@) {
        "\u{f306}"@
    } else if spec_str_contains(os, "deepin"@) {
        "\u{f321}"@
    } else if spec_str_contains(os, "devuan"@) {
        "\u{f307}"@
    } else if spec_str_contains(os, "elementary"@) {
        "\u{f309}"@
    } else if spec_str_contains(os, "endeavour"@) {
        "\u{f322}"@
    } else if spec_str_contains(os, "fedora"@) {
        "\u{f30a}"@
    } else if spec_str_contains(os, "macos"@) {
        "\u{f302}"@
    } else if spec_str_contains(os, "freebsd"@) {
        "\u{f30c}"@
    } else if spec_str_contains(os, "garuda"@) {
        "\u{f337}"@
    } else if spec_str_contains(os, "gentoo"@) {
        "\u{f30d}"@
    } else if spec_str_contains(os, "hyperbola"@) {
        "\u{f33a}"@
    } else if spec_str_contains(os, "illumos"@) {
        "\u{f326}"@
    } else if spec_str_contains(os, "kubuntu"@) {
        "\u{f333}"@
    } else if spec_str_contains(os, "locos"@) {
        "\u{f349}"@
    } else if spec_str_contains(os, "mageia"@) {
        "\u{f310}"@
    } else if spec_str_contains(os, "mandriva"@) {
        "\u{f311}"@
    } else if spec_str_contains(os, "manjaro"@) {
        "\u{f312}"@
    } else if spec_str_contains(os, "mxlinux"@) {
        "\u{f33f}"@
    } else if spec_str_contains(os, "openbsd"@) {
        "\u{f328}"@
    } else if spec_str_contains(os, "opensuse"@) {
        "\u{f314}"@
    } else if spec_str_contains(os, "parabola"@) {
        "\u{f340}"@
    } else if spec_str_contains(os, "parrot"@) {
        "\u{f329}"@
    } else if spec_str_contains(os, "puppy"@) {
        "\u{f341}"@
    } else if spec_str_contains(os, "qubes"@) {
        "\u{f342}"@
    } else if spec_str_contains(os, "redhat"@) {
        "\u{f316}"@
    } else if spec_str_contains(os, "sabayon"@) {
        "\u{f317}"@
    } else if spec_str_contains(os, "slackware"@) {
        "\u{f318}"@
    } else if spec_str_contains(os, "solus"@) {
        "\u{f32d}"@
    } else if spec_str_contains(os, "tails"@) {
        "\u{f343}"@
    } else if spec_str_contains(os, "trisquel"@) {
        "\u{f344}"@
    } else if spec_str_contains(os, "ubuntu"@) {
        "\u{f31b}"@
    } else if spec_str_contains(os, "vanilla"@) {
        "\u{f366}"@
    } else if spec_str_contains(os, "void"@) {
        "\u{f32e}"@
    } else if spec_str_contains(os, "xerolinux"@) {
        "\u{f34a}"@
    } else if spec_str_contains(os, "xorin"@) {
        "\u{f32f}"@
    } else if spec_str_contains(os, "guix"@) {
        "\u{f325}"@
    } else if spec_str_contains(os, "pop!_os"@) {
        "\u{f32a}"@
    } else if spec_str_contains(os, "rhel"@) {
        "\u{f316}"@
    } else if spec_str_contains(os, "arch"@) {
        "\u{f303}"@
    } else if spec_str_contains(os, "alma"@) {
        "\u{f31d}"@
    } else {
        "\u{e712}"@
    }
}

/// Exec lookup of the operating-system icon.
#[verifier::rlimit(30)]
pub fn os_icon(os: &str) -> (r: String)
    ensures
        r@ == spec_os_icon(os@),
{
    if str_contains(os, "nixos") {
        String::from_str("\u{f313}")
    } else if str_contains(os, "kali") {
        String::from_str("\u{f327}")
    } else if str_contains(os, "rocky") {
        String::from_str("\u{f32b}")
    } else if str_contains(os, "mint") {
        String::from_str("\u{f08ed}")
    } else if str_contains(os, "alpine") {
        String::from_str("\u{f300}")
    } else if str_contains(os, "archcraft") {
        String::from_str("\u{f345}")
    } else if str_contains(os, "archlabs") {
        String::from_str("\u{f31e}")
    } else if str_contains(os, "arcolinux") {
        String::from_str("\u{f346}")
    } else if str_contains(os, "artix") {
        String::from_str("\u{f31f}")
    } else if str_contains(os, "centos") {
        String::from_str("\u{f304}")
    } else if str_contains(os, "coreos") {
        String::from_str("\u{f305}")
    } else if str_contains(os, "crystal") {
        String::from_str("\u{f348}")
    } else if str_contains(os, "debian") {
        String::from_str("\u{f306}")
    } else if str_contains(os, "deepin") {
        String::from_str("\u{f321}")
    } else if str_contains(os, "devuan") {
        String::from_str("\u{f307}")
    } else if str_contains(os, "elementary") {
        String::from_str("\u{f309}")
    } else if str_contains(os, "endeavour") {
        String::from_str("\u{f322}")
    } else if str_contains(os, "fedora") {
        String::from_str("\u{f30a}")
    } else if str_contains(os, "macos") {
        String::from_str("\u{f302}")
    } else if str_contains(os, "freebsd") {
        String::from_str("\u{f30c}")
    } else if str_contains(os, "garuda") {
        String::from_str("\u{f337}")
    } else if str_contains(os, "gentoo") {
        String::from_str("\u{f30d}")
    } else if str_contains(os, "hyperbola") {
        String::from_str("\u{f33a}")
    } else if str_contains(os, "illumos") {
        String::from_str("\u{f326}")
    } else if str_contains(os, "kubuntu") {
        String::from_str("\u{f333}")
    } else if str_contains(os, "locos") {
        String::from_str("\u{f349}")
    } else if str_contains(os, "mageia") {
        String::from_str("\u{f310}")
    } else if str_contains(os, "mandriva") {
        String::from_str("\u{f311}")
    } else if str_contains(os, "manjaro") {
        String::from_str("\u{f312}")
    } else if str_contains(os, "mxlinux") {
        String::from_str("\u{f33f}")
    } else if str_contains(os, "openbsd") {
        String::from_str("\u{f328}")
    } else if str_contains(os, "opensuse") {
        String::from_str("\u{f314}")
    } else if str_contains(os, "parabola") {
        String::from_str("\u{f340}")
    } else if str_contains(os, "parrot") {
        String::from_str("\u{f329}")
    } else if str_contains(os, "puppy") {
        String::from_str("\u{f341}")
    } else if str_contains(os, "qubes") {
        String::from_str("\u{f342}")
    } else if str_contains(os, "redhat") {
        String::from_str("\u{f316}")
    } else if str_contains(os, "sabayon") {
        String::from_str("\u{f317}")
    } else if str_contains(os, "slackware") {
        String::from_str("\u{f318}")
    } else if str_contains(os, "solus") {
        String::from_str("\u{f32d}")
    } else if str_contains(os, "tails") {
        String::from_str("\u{f343}")
    } else if str_contains(os, "trisquel") {
        String::from_str("\u{f344}")
    } else if str_contains(os, "ubuntu") {
        String::from_str("\u{f31b}")
    } else if str_contains(os, "vanilla") {
        String::from_str("\u{f366}")
    } else if str_contains(os, "void") {
        String::from_str("\u{f32e}")
    } else if str_contains(os, "xerolinux") {
        String::from_str("\u{f34a}")
    } else if str_contains(os, "xorin") {
        String::from_str("\u{f32f}")
    } else if str_contains(os, "guix") {
        String::from_str("\u{f325}")
    } else if str_contains(os, "pop!_os") {
        String::from_str("\u{f32a}")
    } else if str_contains(os, "rhel") {
        String::from_str("\u{f316}")
    } else if str_contains(os, "arch") {
        String::from_str("\u{f303}")
    } else if str_contains(os, "alma") {
        String::from_str("\u{f31d}")
    } else {
        String::from_str("\u{e712}")
    }
}

/// The desktop/window-manager module choice: whether the match came from
/// the desktop-environment string (tested first for each entry) or the
/// window-manager string, and the matched entry's icon; the generic
/// window-manager icon when nothing matches.
pub open spec fn spec_wm_icon(de: Seq<char>, wm: Seq<char>) -> (bool, Seq<char>) {
    if spec_str_contains(de, "hyprland"@) {
        (true, "\u{f359}"@)
    } else if spec_str_contains(wm, "hyprland"@) {
        (false, "\u{f359}"@)
    } else if spec_str_contains(de, "awesome"@) {
        (true, "\u{f354}"@)
    } else if spec_str_contains(wm, "awesome"@) {
        (false, "\u{f354}"@)
    } else if spec_str_contains(de, "bspwm"@) {
        (true, "\u{f355}"@)
    } else if spec_str_contains(wm, "bspwm"@) {
        (false, "\u{f355}"@)
    } else if spec_str_contains(de, "budgie"@) {
        (true, "\u{f320}"@)
    } else if spec_str_contains(wm, "budgie"@) {
        (false, "\u{f320}"@)
    } else if spec_str_contains(de, "cinnamon"@) {
        (true, "\u{f35f}"@)
    } else if spec_str_contains(wm, "cinnamon"@) {
        (false, "\u{f35f}"@)
    } else if spec_str_contains(de, "dwm"@) {
        (true, "\u{f356}"@)
    } else if spec_str_contains(wm, "dwm"@) {
        (false, "\u{f356}"@)
    } else if spec_str_contains(de, "enlightenment"@) {
        (true, "\u{f357}"@)
    } else if spec_str_contains(wm, "enlightenment"@) {
        (false, "\u{f357}"@)
    } else if spec_str_contains(de, "fluxbox"@) {
        (true, "\u{f358}"@)
    } else if spec_str_contains(wm, "fluxbox"@) {
        (false, "\u{f358}"@)
    } else if spec_str_contains(de, "gnome"@) {
        (true, "\u{f361}"@)
    } else if spec_str_contains(wm, "gnome"@) {
        (false, "\u{f361}"@)
    } else if spec_str_contains(de, "i3"@) {
        (true, "\u{f35a}"@)
    } else if spec_str_contains(wm, "i3"@) {
        (false, "\u{f35a}"@)
    } else if spec_str_contains(de, "lxde"@) {
        (true, "\u{f363}"@)
    } else if spec_str_contains(wm, "lxde"@) {
        (false, "\u{f363}"@)
    } else if spec_str_contains(de, "lxqt"@) {
        (true, "\u{f364}"@)
    } else if spec_str_contains(wm, "lxqt"@) {
        (false, "\u{f364}"@)
    } else if spec_str_contains(de, "mate"@) {
        (true, "\u{f365}"@)
    } else if spec_str_contains(wm, "mate"@) {
        (false, "\u{f365}"@)
    } else if spec_str_contains(de, "plasma"@) {
        (true, "\u{f332}"@)
    } else if spec_str_contains(wm, "plasma"@) {
        (false, "\u{f332}"@)
    } else if spec_str_contains(de, "qtile"@) {
        (true, "\u{f35c}"@)
    } else if spec_str_contains(wm, "qtile"@) {
        (false, "\u{f35c}"@)
    } else if spec_str_contains(de, "sway"@) {
        (true, "\u{f35d}"@)
    } else if spec_str_contains(wm, "sway"@) {
        (false, "\u{f35d}"@)
    } else if spec_str_contains(de, "xfce"@) {
        (true, "\u{f368}"@)
    } else if spec_str_contains(wm, "xfce"@) {
        (false, "\u{f368}"@)
    } else if spec_str_contains(de, "xmonad"@) {
        (true, "\u{f35e}"@)
    } else if spec_str_contains(wm, "xmonad"@) {
        (false, "\u{f35e}"@)
    } else {
        (false, "\u{f056e}"@)
    }
}

/// Exec lookup of the desktop/window-manager module choice.
#[verifier::rlimit(30)]
pub fn wm_icon(de: &str, wm: &str) -> (r: (bool, String))
    ensures
        ({
            let s = spec_wm_icon(de@, wm@);
            r.0 == s.0 && r.1@ == s.1
        }),
{
    if str_contains(de, "hyprland") {
        (true, String::from_str("\u{f359}"))
    } else if str_contains(wm, "hyprland") {
        (false, String::from_str("\u{f359}"))
    } else if str_contains(de, "awesome") {
        (true, String::from_str("\u{f354}"))
    } else if str_contains(wm, "awesome") {
        (false, String::from_str("\u{f354}"))
    } else if str_contains(de, "bspwm") {
        (true, String::from_str("\u{f355}"))
    } else if str_contains(wm, "bspwm") {
        (false, String::from_str("\u{f355}"))
    } else if str_contains(de, "budgie") {
        (true, String::from_str("\u{f320}"))
    } else if str_contains(wm, "budgie") {
        (false, String::from_str("\u{f320}"))
    } else if str_contains(de, "cinnamon") {
        (true, String::from_str("\u{f35f}"))
    } else if str_contains(wm, "cinnamon") {
        (false, String::from_str("\u{f35f}"))
    } else if str_contains(de, "dwm") {
        (true, String::from_str("\u{f356}"))
    } else if str_contains(wm, "dwm") {
        (false, String::from_str("\u{f356}"))
    } else if str_contains(de, "enlightenment") {
        (true, String::from_str("\u{f357}"))
    } else if str_contains(wm, "enlightenment") {
        (false, String::from_str("\u{f357}"))
    } else if str_contains(de, "fluxbox") {
        (true, String::from_str("\u{f358}"))
    } else if str_contains(wm, "fluxbox") {
        (false, String::from_str("\u{f358}"))
    } else if str_contains(de, "gnome") {
        (true, String::from_str("\u{f361}"))
    } else if str_contains(wm, "gnome") {
        (false, String::from_str("\u{f361}"))
    } else if str_contains(de, "i3") {
        (true, String::from_str("\u{f35a}"))
    } else if str_contains(wm, "i3") {
        (false, String::from_str("\u{f35a}"))
    } else if str_contains(de, "lxde") {
        (true, String::from_str("\u{f363}"))
    } else if str_contains(wm, "lxde") {
        (false, String::from_str("\u{f363}"))
    } else if str_contains(de, "lxqt") {
        (true, String::from_str("\u{f364}"))
    } else if str_contains(wm, "lxqt") {
        (false, String::from_str("\u{f364}"))
    } else if str_contains(de, "mate") {
        (true, String::from_str("\u{f365}"))
    } else if str_contains(wm, "mate") {
        (false, String::from_str("\u{f365}"))
    } else if str_contains(de, "plasma") {
        (true, String::from_str("\u{f332}"))
    } else if str_contains(wm, "plasma") {
        (false, String::from_str("\u{f332}"))
    } else if str_contains(de, "qtile") {
        (true, String::from_str("\u{f35c}"))
    } else if str_contains(wm, "qtile") {
        (false, String::from_str("\u{f35c}"))
    } else if str_contains(de, "sway") {
        (true, String::from_str("\u{f35d}"))
    } else if str_contains(wm, "sway") {
        (false, String::from_str("\u{f35d}"))
    } else if str_contains(de, "xfce") {
        (true, String::from_str("\u{f368}"))
    } else if str_contains(wm, "xfce") {
        (false, String::from_str("\u{f368}"))
    } else if str_contains(de, "xmonad") {
        (true, String::from_str("\u{f35e}"))
    } else if str_contains(wm, "xmonad") {
        (false, String::from_str("\u{f35e}"))
    } else {
        (false, String::from_str("\u{f056e}"))
    }
}

/// The named colour given to the key of the module at position `i`: the
/// five colours are cycled through in order.
pub open spec fn spec_key_color(i: int) -> Seq<char> {
    let k = i % 5;
    if k == 0 {
        "green"@
    } else if k == 1 {
        "yellow"@
    } else if k == 2 {
        "blue"@
    } else if k == 3 {
        "magenta"@
    } else {
        "cyan"@
    }
}

/// Exec lookup of the cyclic module key colour.
pub fn key_color(i: usize) -> (r: &'static str)
    ensures
        r@ == spec_key_color(i as int),
{
    let k = i % 5;
    if k == 0 {
        "green"
    } else if k == 1 {
        "yellow"
    } else if k == 2 {
        "blue"
    } else if k == 3 {
        "magenta"
    } else {
        "cyan"
    }
}

/// The positions of the discrete GPUs in a list of discreteness flags,
/// scanning from position `i`.
pub open spec fn spec_true_indices(s: Seq<bool>, i: int) -> Seq<usize>
    decreases s.len() - i,
{
    if i < 0 || i >= s.len() {
        Seq::empty()
    } else if s[i] {
        seq![(i as usize)] + spec_true_indices(s, i + 1)
    } else {
        spec_true_indices(s, i + 1)
    }
}

/// Which GPUs of a detected list to show, by position, given each one's
/// discreteness: the discrete ones when there are any; otherwise all but
/// the first (usually the integrated one) when several were found;
/// otherwise all of them.
pub open spec fn spec_gpu_selection(discrete: Seq<bool>) -> Seq<usize> {
    let disc = spec_true_indices(discrete, 0);
    if disc.len() > 0 {
        disc
    } else if discrete.len() > 1 {
        Seq::new((discrete.len() - 1) as nat, |i: int| ((i + 1) as usize))
    } else {
        Seq::new(discrete.len(), |i: int| (i as usize))
    }
}

/// Picks which GPUs to show, by position in the detected list.
pub fn select_gpu_indices(discrete: &Vec<bool>) -> (r: Vec<usize>)
    ensures
        r@ == spec_gpu_selection(discrete@),
{
    let n = discrete.len();
    let mut disc: Vec<usize> = Vec::new();
    let mut k: usize = 0;
    while k < n
        invariant
            n == discrete@.len(),
            k <= n,
            spec_true_indices(discrete@, 0) == disc@ + spec_true_indices(discrete@, k as int),
        decreases n - k,
    {
        if discrete[k] {
            let ghost before = disc@;
            disc.push(k);
            proof {
                assert(before + seq![(k as usize)] + spec_true_indices(discrete@, k + 1) =~= before
                    + (seq![(k as usize)] + spec_true_indices(discrete@, k + 1)));
            }
        }
        k += 1;
    }
    proof {
        assert(disc@ + spec_true_indices(discrete@, n as int) =~= disc@);
    }
    if disc.len() > 0 {
        return disc;
    }
    let mut all: Vec<usize> = Vec::new();
    let start: usize = if n > 1 {
        1
    } else {
        0
    };
    let mut k: usize = start;
    while k < n
        invariant
            n == discrete@.len(),
            start <= k <= n || (start > n && k == start),
            start == (if n > 1 {
                1int
            } else {
                0int
            }),
            all@.len() == k - start,
            forall|i: int| 0 <= i < all@.len() ==> all@[i] == (i + start) as usize,
        decreases n - k,
    {
        all.push(k);
        k += 1;
    }
    proof {
        if n > 1 {
            assert(all@ =~= Seq::new((discrete@.len() - 1) as nat, |i: int| ((i + 1) as usize)));
        } else {
            assert(all@ =~= Seq::new(discrete@.len(), |i: int| (i as usize)));
        }
    }
    all
}

/// The shell module: the key's icon and the echo command, from the
/// starship-reported shell when set, else the login shell, recognising fish
/// and zsh by suffix and defaulting to bash.
pub open spec fn spec_shell_module(starship: Option<Seq<char>>, shell: Seq<char>) -> (
    Seq<char>,
    Seq<char>,
) {
    match starship {
        Some(s) => {
            if spec_str_ends_with(s, "fish"@) {
                ("\u{f023a} SH"@, "echo fish"@)
            } else {
                ("\u{f120} SH"@, "echo "@ + s)
            }
        },
        None => {
            if spec_str_ends_with(shell, "fish"@) {
                ("\u{f023a} SH"@, "echo fish"@)
            } else if spec_str_ends_with(shell, "zsh"@) {
                ("\u{f120} SH"@, "echo zsh"@)
            } else {
                ("\u{f120} SH"@, "echo bash"@)
            }
        },
    }
}

/// Exec decision of the shell module's key and command.
pub fn shell_module(starship: Option<&str>, shell: &str) -> (r: (String, String))
    ensures
        ({
            let s = spec_shell_module(
                match starship {
                    Some(v) => Some(v@),
                    None => None,
                },
                shell@,
            );
            r.0@ == s.0 && r.1@ == s.1
        }),
{
    match starship {
        Some(s) => {
            if str_ends_with(s, "fish") {
                (String::from_str("\u{f023a} SH"), String::from_str("echo fish"))
            } else {
                let mut text = String::new();
                text.append("echo ");
                text.append(s);
                (String::from_str("\u{f120} SH"), text)
            }
        },
        None => {
            if str_ends_with(shell, "fish") {
                (String::from_str("\u{f023a} SH"), String::from_str("echo fish"))
            } else if str_ends_with(shell, "zsh") {
                (String::from_str("\u{f120} SH"), String::from_str("echo zsh"))
            } else {
                (String::from_str("\u{f120} SH"), String::from_str("echo bash"))
            }
        },
    }
}

} // verus!
