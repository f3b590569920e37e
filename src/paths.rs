use vstd::prelude::*;
use crate::model::{ActionContext, ActionContextView};

verus! {

pub open spec fn digit(d: nat) -> char {
    seq!['0', '1', '2', '3', '4', '5', '6', '7', '8', '9'][(d % 10) as int]
}

/// The decimal digits of `n`, most significant first.
pub open spec fn decimal(n: nat) -> Seq<char>
    decreases n,
{
    if n < 10 {
        seq![digit(n)]
    } else {
        decimal(n / 10) + seq![digit(n % 10)]
    }
}

/// The asset directory of the instance at `c`, under the configuration
/// directory `root`: `root/images/device/profile/controller.position.index`.
pub open spec fn images_dir(root: Seq<char>, c: ActionContextView) -> Seq<char> {
    root + "/images/"@ + c.device + "/"@ + c.profile + "/"@ + c.controller + "."@ + decimal(
        c.position as nat,
    ) + "."@ + decimal(c.index as nat)
}

/// `image` moved from under `old_dir` to under `new_dir`; a path outside
/// `old_dir` is left as it is.
pub open spec fn rebased(image: Seq<char>, old_dir: Seq<char>, new_dir: Seq<char>) -> Seq<char> {
    if image == old_dir {
        new_dir
    } else if under(image, old_dir) {
        new_dir + image.subrange(old_dir.len() as int, image.len() as int)
    } else {
        image
    }
}

/// Whether `image` lies strictly below the directory `dir`.
pub open spec fn under(image: Seq<char>, dir: Seq<char>) -> bool {
    &&& dir.len() < image.len()
    &&& image.subrange(0, dir.len() as int) == dir
    &&& image[dir.len() as int] == '/'
}

fn digit_str(d: u64) -> (r: &'static str)
    requires
        d < 10,
    ensures
        r@ == seq![digit(d as nat)],
{
    proof {
        reveal_strlit("0");
        reveal_strlit("1");
        reveal_strlit("2");
        reveal_strlit("3");
        reveal_strlit("4");
        reveal_strlit("5");
        reveal_strlit("6");
        reveal_strlit("7");
        reveal_strlit("8");
        reveal_strlit("9");
    }
    if d == 0 {
        "0"
    } else if d == 1 {
        "1"
    } else if d == 2 {
        "2"
    } else if d == 3 {
        "3"
    } else if d == 4 {
        "4"
    } else if d == 5 {
        "5"
    } else if d == 6 {
        "6"
    } else if d == 7 {
        "7"
    } else if d == 8 {
        "8"
    } else {
        "9"
    }
}

/// Appends the decimal digits of `n` to `s`.
pub fn push_decimal(s: &mut String, n: u64)
    ensures
        final(s)@ == old(s)@ + decimal(n as nat),
    decreases n,
{
    if n < 10 {
        s.append(digit_str(n));
    } else {
        push_decimal(s, n / 10);
        s.append(digit_str(n % 10));
        assert(final(s)@ =~= old(s)@ + decimal(n as nat));
    }
}

/// The asset directory of the instance at `context` under the configuration
/// directory `root`.
pub fn instance_images_dir(root: &String, context: &ActionContext) -> (r: String)
    ensures
        r@ == images_dir(root@, context@),
{
    let mut s = root.clone();
    s.append("/images/");
    s.append(context.device.as_str());
    s.append("/");
    s.append(context.profile.as_str());
    s.append("/");
    s.append(context.controller.as_str());
    s.append(".");
    push_decimal(&mut s, context.position as u64);
    s.append(".");
    push_decimal(&mut s, context.index as u64);
    s
}

/// `image` moved from under `old_dir` to under `new_dir`.
pub fn rebase_image(image: &String, old_dir: &String, new_dir: &String) -> (r: String)
    ensures
        r@ == rebased(image@, old_dir@, new_dir@),
{
    if *image == *old_dir {
        return new_dir.clone();
    }
    let n = image.as_str().unicode_len();
    let m = old_dir.as_str().unicode_len();
    if m < n {
        let head = image.as_str().substring_char(0, m).to_owned();
        if head == *old_dir && image.as_str().get_char(m) == '/' {
            let mut r = new_dir.clone();
            r.append(image.as_str().substring_char(m, n));
            return r;
        }
    }
    image.clone()
}

} // verus!
