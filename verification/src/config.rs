//! Daemon configuration: the command templates for volume OSD and volume
//! setting, and the optional audio-server restart command.  Loading the
//! file is the caller's work; this module owns the defaults, the path
//! under the configuration directory, and template substitution.

use vstd::prelude::*;
use vstd::string::StringExecFns;

verus! {

/// The daemon's configuration.
#[derive(Clone, Debug)]
pub struct Config {
    /// Command to show a volume OSD; `{}` becomes the signed delta.
    pub volume_osd_command: Vec<String>,
    /// Command to set the absolute volume; `{}` becomes a 0.0–1.0 fraction.
    pub volume_set_command: Vec<String>,
    /// Command to restart the audio server; `None` disables the restart.
    pub restart_audio_server: Option<Vec<String>>,
}

impl Default for Config {
    /// The stock configuration: swayosd for the OSD, wpctl for absolute
    /// volume, and no audio-server restart.
    fn default() -> (r: Config)
        ensures
            r.volume_osd_command@.len() == 3,
            r.volume_osd_command@[0]@ == "swayosd-client"@,
            r.volume_osd_command@[1]@ == "--output-volume"@,
            r.volume_osd_command@[2]@ == "{}"@,
            r.volume_set_command@.len() == 4,
            r.volume_set_command@[0]@ == "wpctl"@,
            r.volume_set_command@[1]@ == "set-volume"@,
            r.volume_set_command@[2]@ == "@DEFAULT_AUDIO_SINK@"@,
            r.volume_set_command@[3]@ == "{}"@,
            r.restart_audio_server is None,
    {
        let mut osd: Vec<String> = Vec::new();
        osd.push(String::from_str("swayosd-client"));
        osd.push(String::from_str("--output-volume"));
        osd.push(String::from_str("{}"));
        let mut set: Vec<String> = Vec::new();
        set.push(String::from_str("wpctl"));
        set.push(String::from_str("set-volume"));
        set.push(String::from_str("@DEFAULT_AUDIO_SINK@"));
        set.push(String::from_str("{}"));
        Config { volume_osd_command: osd, volume_set_command: set, restart_audio_server: None }
    }
}

/// The configuration file inside a configuration directory.
pub fn config_path(config_dir: &str) -> (r: String)
    ensures
        r@ == config_dir@ + "/airpods-tui/config.toml"@,
{
    let mut path = String::from_str(config_dir);
    path.append("/airpods-tui/config.toml");
    path
}

/// `s` with every `{}` replaced by `v`.
pub open spec fn spec_subst(s: Seq<char>, v: Seq<char>) -> Seq<char>
    decreases s.len(),
{
    if s.len() < 2 {
        s
    } else if s[0] == '{' && s[1] == '}' {
        v + spec_subst(s.subrange(2, s.len() as int), v)
    } else {
        seq![s[0]] + spec_subst(s.subrange(1, s.len() as int), v)
    }
}

/// One argument with every `{}` replaced by the value.
fn subst_arg(arg: &str, value: &str) -> (r: String)
    ensures
        r@ == spec_subst(arg@, value@),
{
    let n = arg.unicode_len();
    let mut out = String::new();
    let mut i: usize = 0;
    proof {
        assert(arg@.subrange(0, n as int) =~= arg@);
        assert(out@ + spec_subst(arg@, value@) =~= spec_subst(arg@, value@));
    }
    while i < n
        invariant
            i <= n,
            n == arg@.len(),
            spec_subst(arg@, value@) == out@ + spec_subst(
                arg@.subrange(i as int, n as int),
                value@,
            ),
        decreases n - i,
    {
        let ghost suf = arg@.subrange(i as int, n as int);
        let c = arg.get_char(i);
        assert(suf[0] == c);
        if i + 1 < n && c == '{' && arg.get_char(i + 1) == '}' {
            assert(suf[1] == arg@[i + 1]);
            out.append(value);
            proof {
                assert(suf.subrange(2, suf.len() as int) =~= arg@.subrange(i + 2, n as int));
            }
            i = i + 2;
        } else {
            let piece = arg.substring_char(i, i + 1);
            out.append(piece);
            proof {
                assert(suf.subrange(1, suf.len() as int) =~= arg@.subrange(i + 1, n as int));
                if suf.len() >= 2 && suf[0] == '{' && suf[1] == '}' {
                    assert(arg@[i + 1] == '}');
                    assert(false);
                }
                assert(piece@ =~= seq![suf[0]]);
            }
            i = i + 1;
        }
    }
    proof {
        assert(arg@.subrange(n as int, n as int) =~= Seq::<char>::empty());
        assert(out@ + Seq::<char>::empty() =~= out@);
    }
    out
}

/// A command template with `{}` replaced by the value in every argument.
pub fn render_template(template: &Vec<String>, value: &str) -> (r: Vec<String>)
    ensures
        r@.len() == template@.len(),
        forall|i: int|
            0 <= i < template@.len() ==> (#[trigger] r@[i])@ == spec_subst(
                template@[i]@,
                value@,
            ),
{
    let mut out: Vec<String> = Vec::new();
    let mut i: usize = 0;
    while i < template.len()
        invariant
            i <= template@.len(),
            out@.len() == i,
            forall|j: int|
                0 <= j < i ==> (#[trigger] out@[j])@ == spec_subst(template@[j]@, value@),
        decreases template@.len() - i,
    {
        out.push(subst_arg(template[i].as_str(), value));
        i = i + 1;
    }
    out
}

} // verus!
