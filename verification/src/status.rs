//! The read-only snapshot surface the status responder serves: the fixed
//! index page, the temperature page, and the storage directory listing.
//!
//! Everything here computes page bodies as bytes; the HTTP plumbing that
//! registers handlers and writes responses lives outside this crate and only
//! hands the bytes out.
use vstd::prelude::*;
use vstd::string::*;

use crate::render::{append_str_bytes, centi_bytes, centi_dec};

verus! {

/// The fixed markup around every page body.
pub fn page_header() -> (r: &'static str)
    ensures
        r@ == "\n    <!DOCTYPE html>\n    <html>\n        <head>\n            <meta charset=\"utf-8\">\n            <title>esp-rs web server</title>\n        </head>\n        <body>\n            "@,
{
    "\n    <!DOCTYPE html>\n    <html>\n        <head>\n            <meta charset=\"utf-8\">\n            <title>esp-rs web server</title>\n        </head>\n        <body>\n            "
}

pub fn page_footer() -> (r: &'static str)
    ensures
        r@ == "\n        </body>\n    </html>\n    "@,
{
    "\n        </body>\n    </html>\n    "
}

/// A whole page: the fixed markup with `content` in the body.
pub open spec fn page_of(content: Seq<u8>) -> Seq<u8> {
    ("\n    <!DOCTYPE html>\n    <html>\n        <head>\n            <meta charset=\"utf-8\">\n            <title>esp-rs web server</title>\n        </head>\n        <body>\n            ").spec_bytes()
        + content + ("\n        </body>\n    </html>\n    ").spec_bytes()
}

/// Wrap a text fragment in the fixed page markup.
pub fn templated(content: &str) -> (r: Vec<u8>)
    ensures
        r@ == page_of(content.spec_bytes()),
{
    let mut v: Vec<u8> = Vec::new();
    append_str_bytes(&mut v, page_header());
    append_str_bytes(&mut v, content);
    append_str_bytes(&mut v, page_footer());
    proof {
        assert(v@ =~= page_of(content.spec_bytes()));
    }
    v
}

/// The index page.
pub fn index_html() -> (r: Vec<u8>)
    ensures
        r@ == page_of(("Hello from ESP32-S3!").spec_bytes()),
{
    templated("Hello from ESP32-S3!")
}

/// The temperature page, for a temperature in hundredths of a degree.
pub fn temperature(temperature_centi: i32) -> (r: Vec<u8>)
    ensures
        r@ == page_of(("mcu temperature: ").spec_bytes() + centi_bytes(temperature_centi as int)),
{
    let mut body: Vec<u8> = Vec::new();
    append_str_bytes(&mut body, page_header());
    append_str_bytes(&mut body, "mcu temperature: ");
    let mut digits = centi_dec(temperature_centi);
    body.append(&mut digits);
    append_str_bytes(&mut body, page_footer());
    proof {
        assert(body@ =~= page_of(
            ("mcu temperature: ").spec_bytes() + centi_bytes(temperature_centi as int),
        ));
    }
    body
}

/// One entry of the storage root, as the caller read it from the mounted
/// volume.
pub struct DirEntry {
    pub name: Vec<u8>,
    pub is_dir: bool,
}

/// One listing line: the name annotated `(dir)` or `(file)`.
pub open spec fn entry_line(name: Seq<u8>, is_dir: bool) -> Seq<u8> {
    name + (" (").spec_bytes() + (if is_dir {
        ("dir").spec_bytes()
    } else {
        ("file").spec_bytes()
    }) + (")").spec_bytes()
}

/// The whole listing: the entries' lines joined with newlines.
pub open spec fn listing_of(entries: Seq<(Seq<u8>, bool)>) -> Seq<u8>
    decreases entries.len(),
{
    if entries.len() == 0 {
        Seq::empty()
    } else if entries.len() == 1 {
        entry_line(entries[0].0, entries[0].1)
    } else {
        listing_of(entries.drop_last()) + ("\n").spec_bytes() + entry_line(
            entries.last().0,
            entries.last().1,
        )
    }
}

/// The view of a list of entries.
pub open spec fn entry_views(entries: Seq<DirEntry>) -> Seq<(Seq<u8>, bool)> {
    Seq::new(entries.len(), |i: int| (entries[i].name@, entries[i].is_dir))
}

fn append_entry_line(v: &mut Vec<u8>, entry: &DirEntry)
    ensures
        final(v)@ == old(v)@ + entry_line(entry.name@, entry.is_dir),
{
    v.extend_from_slice(entry.name.as_slice());
    append_str_bytes(v, " (");
    if entry.is_dir {
        append_str_bytes(v, "dir");
    } else {
        append_str_bytes(v, "file");
    }
    append_str_bytes(v, ")");
    proof {
        assert(final(v)@ =~= old(v)@ + entry_line(entry.name@, entry.is_dir));
    }
}

/// The `/files` page body: every entry of the storage root on its own line,
/// annotated `(dir)` or `(file)`.
pub fn file_list_text(entries: &Vec<DirEntry>) -> (r: Vec<u8>)
    ensures
        r@ == listing_of(entry_views(entries@)),
{
    let ghost views = entry_views(entries@);
    let mut v: Vec<u8> = Vec::new();
    let mut i: usize = 0;
    proof {
        assert(views.take(0) =~= Seq::<(Seq<u8>, bool)>::empty());
    }
    while i < entries.len()
        invariant
            i <= entries@.len(),
            views == entry_views(entries@),
            views.len() == entries@.len(),
            v@ == listing_of(views.take(i as int)),
        decreases entries@.len() - i,
    {
        proof {
            assert(views.take(i + 1).drop_last() =~= views.take(i as int));
            assert(views.take(i + 1).last() == views[i as int]);
        }
        if i > 0 {
            append_str_bytes(&mut v, "\n");
        }
        append_entry_line(&mut v, &entries[i]);
        proof {
            if i == 0 {
                assert(views.take(1).len() == 1);
                assert(v@ =~= listing_of(views.take(1)));
            } else {
                assert(v@ =~= listing_of(views.take(i as int)) + ("\n").spec_bytes()
                    + entry_line(views[i as int].0, views[i as int].1));
            }
        }
        i += 1;
    }
    proof {
        assert(views.take(entries@.len() as int) =~= views);
    }
    v
}

} // verus!
