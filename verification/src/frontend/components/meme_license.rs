//! The meme license page.

use vstd::prelude::*;
use vstd::string::*;

verus! {

/// The lines of a license: each field with its value.
pub open spec fn license_lines(username: Seq<char>) -> Seq<(Seq<char>, Seq<char>)> {
    seq![
        ("Username"@, username),
        ("Valid From"@, "2024"@),
        ("Expires"@, "2026"@),
        ("Issuer"@, "Steven"@),
    ]
}

/// The lines of `username`'s license, in order.
pub fn license_fields(username: &str) -> (r: Vec<(String, String)>)
    ensures
        r@.len() == 4,
        forall|i: int|
            0 <= i < 4 ==> (#[trigger] r@[i]).0@ == license_lines(username@)[i].0 && r@[i].1@
                == license_lines(username@)[i].1,
{
    let mut r: Vec<(String, String)> = Vec::new();
    r.push((String::from_str("Username"), String::from_str(username)));
    r.push((String::from_str("Valid From"), String::from_str("2024")));
    r.push((String::from_str("Expires"), String::from_str("2026")));
    r.push((String::from_str("Issuer"), String::from_str("Steven")));
    r
}

/// The title of the license.
pub fn license_title() -> (r: &'static str)
    ensures
        r@ == "Meme Stealing License"@,
{
    "Meme Stealing License"
}

/// The style of the license's picture: the holder's profile picture,
/// falling back to the default one, at a fixed shape.
pub fn license_picture_style(api_base: &str, username: &str) -> (r: String)
    ensures
        r@ == "background-image: \n                            url('"@ + api_base@ + "/static/pfp/"@
            + username@ + ".png'),\n                            url('"@ + api_base@
            + "/static/public/default_pfp.png');\n                        \n                        height: 25vw;\n                        max-height: 100%;\n                        width: revert;\n                        aspect-ratio: 1/1;\n                        border-radius: 40px 0px 40px 0px;\n                        flex-shrink: 0;\n                        box-shadow: 0 2px 8px var(--shadow-color);\n                        "@,
{
    let mut r = String::from_str("background-image: \n                            url('");
    r.append(api_base);
    r.append("/static/pfp/");
    r.append(username);
    r.append(".png'),\n                            url('");
    r.append(api_base);
    r.append(
        "/static/public/default_pfp.png');\n                        \n                        height: 25vw;\n                        max-height: 100%;\n                        width: revert;\n                        aspect-ratio: 1/1;\n                        border-radius: 40px 0px 40px 0px;\n                        flex-shrink: 0;\n                        box-shadow: 0 2px 8px var(--shadow-color);\n                        ",
    );
    r
}

} // verus!
