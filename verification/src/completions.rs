use vstd::prelude::*;

verus! {

/// The character of one decimal digit.
pub open spec fn spec_digit_char(d: int) -> char {
    if d == 0 {
        '0'
    } else if d == 1 {
        '1'
    } else if d == 2 {
        '2'
    } else if d == 3 {
        '3'
    } else if d == 4 {
        '4'
    } else if d == 5 {
        '5'
    } else if d == 6 {
        '6'
    } else if d == 7 {
        '7'
    } else if d == 8 {
        '8'
    } else {
        '9'
    }
}

/// The decimal rendering of a number, most significant digit first.
pub open spec fn spec_decimal(n: nat) -> Seq<char>
    decreases n,
{
    if n < 10 {
        seq![spec_digit_char(n as int)]
    } else {
        spec_decimal(n / 10) + seq![spec_digit_char((n % 10) as int)]
    }
}

fn digit_str(d: u32) -> (r: String)
    requires
        d < 10,
    ensures
        r@ == seq![spec_digit_char(d as int)],
{
    let r = match d {
        0 => String::from_str("0"),
        1 => String::from_str("1"),
        2 => String::from_str("2"),
        3 => String::from_str("3"),
        4 => String::from_str("4"),
        5 => String::from_str("5"),
        6 => String::from_str("6"),
        7 => String::from_str("7"),
        8 => String::from_str("8"),
        _ => String::from_str("9"),
    };
    proof {
        reveal_strlit("0");
        reveal_strlit("1");
        reveal_strlit("2");
        reveal_strlit("3");
        reveal_strlit("4");
        reveal_strlit("5");
        reveal_strlit("6");
        reveal_strlit("7");
        reveal_strlit("8");
        reveal_strlit("9");
        assert(r@ =~= seq![spec_digit_char(d as int)]);
    }
    r
}

/// Render a number in decimal.
pub fn decimal_string(n: u32) -> (r: String)
    ensures
        r@ == spec_decimal(n as nat),
    decreases n,
{
    if n < 10 {
        digit_str(n)
    } else {
        let mut head = decimal_string(n / 10);
        let tail = digit_str(n % 10);
        head.append(tail.as_str());
        head
    }
}

/// The completion snippet for one command level of the bash completion
/// script: at the level where the command's device argument stands, offer the
/// cached device names.
pub fn device_completion_bash(level: u32) -> (r: String)
    ensures
        r@ == "\n        if [[ ${cur} != -* "@ + "&& ${COMP_CWORD} -eq "@ + spec_decimal(
            level as nat,
        )
            + " ]] ; then\n            path=\"$XDG_CACHE_HOME\"\n            [[ -n \"$path\" ]] || path=\"$HOME/.cache\"\n            path=\"$path/tapoctl-device-completions.txt\"\n\n            devices=\"<DEVICE>\"\n            [[ -e \"$path\" ]] && devices=\"$(cat $path)\"\n\n            COMPREPLY=( $(compgen -W \"$devices \" -- \"${cur}\") )\n            return 0\n        fi\n    "@,
{
    let mut out = String::from_str("\n        if [[ ${cur} != -* ");
    out.append("&& ${COMP_CWORD} -eq ");
    let digits = decimal_string(level);
    out.append(digits.as_str());
    out.append(
        " ]] ; then\n            path=\"$XDG_CACHE_HOME\"\n            [[ -n \"$path\" ]] || path=\"$HOME/.cache\"\n            path=\"$path/tapoctl-device-completions.txt\"\n\n            devices=\"<DEVICE>\"\n            [[ -e \"$path\" ]] && devices=\"$(cat $path)\"\n\n            COMPREPLY=( $(compgen -W \"$devices \" -- \"${cur}\") )\n            return 0\n        fi\n    ",
    );
    out
}

} // verus!
