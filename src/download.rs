use vstd::prelude::*;

verus! {

/// Name of a downloaded export: the time stamp, an underscore, the base
/// name, and the `.csv` extension.
pub fn download_file_name(stamp: &str, file_name: &str) -> (r: String)
    ensures
        r@ == stamp@ + "_"@ + file_name@ + ".csv"@,
{
    let mut r = String::from_str(stamp);
    r.append("_");
    r.append(file_name);
    r.append(".csv");
    r
}

/// Label of the download button: the given name, or `Download` when it is
/// empty.
pub fn button_label(button_name: &str) -> (r: String)
    ensures
        r@ == if button_name@.len() > 0 {
            button_name@
        } else {
            "Download"@
        },
{
    if !button_name.is_empty() {
        String::from_str(button_name)
    } else {
        String::from_str("Download")
    }
}

} // verus!
