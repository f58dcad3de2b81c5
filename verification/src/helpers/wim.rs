//! Reading `wimlib-imagex info` listings and the arguments of the WIM
//! commands.
use vstd::prelude::*;
use crate::num::{decimal, parse_u32, parse_u32_exec, to_decimal};
use crate::text::{
    chars_of, copy_range, lowercase, owned, split_on, split_on_exec, starts_with, starts_with_exec,
    string_of, to_lower, trim_white, trim_white_exec, views, vviews,
};

verus! {

/// The listing reader's state: images found so far, and the index and
/// name of the image being read.
pub type WimState = (Seq<(u32, Seq<char>)>, Option<u32>, Option<Seq<char>>);

/// How one line changes the state: an `Index:` line finishes the image
/// being read (when it has both an index and a name) and starts a new one;
/// a `Name:` line names the current image; other lines are ignored. Lines
/// and values are trimmed of white space.
pub open spec fn wim_step(st: WimState, raw: Seq<char>) -> WimState {
    let line = trim_white(raw);
    if starts_with(line, "Index:"@) {
        let images = match (st.1, st.2) {
            (Some(i), Some(n)) => st.0.push((i, n)),
            _ => st.0,
        };
        (
            images,
            parse_u32(trim_white(line.subrange("Index:"@.len() as int, line.len() as int))),
            None,
        )
    } else if starts_with(line, "Name:"@) {
        (st.0, st.1, Some(trim_white(line.subrange("Name:"@.len() as int, line.len() as int))))
    } else {
        st
    }
}

/// The state after reading `lines` in order.
pub open spec fn wim_fold(lines: Seq<Seq<char>>) -> WimState
    decreases lines.len(),
{
    if lines.len() == 0 {
        (Seq::empty(), None, None)
    } else {
        wim_step(wim_fold(lines.drop_last()), lines.last())
    }
}

/// The images (index and name) that a `wimlib-imagex info` listing
/// describes, in order.
pub open spec fn wim_images(out: Seq<char>) -> Seq<(u32, Seq<char>)> {
    let st = wim_fold(split_on(out, '\n'));
    match (st.1, st.2) {
        (Some(i), Some(n)) => st.0.push((i, n)),
        _ => st.0,
    }
}

/// The models of a list of images.
pub open spec fn image_views(v: Seq<(u32, String)>) -> Seq<(u32, Seq<char>)> {
    v.map_values(|p: (u32, String)| (p.0, p.1@))
}

/// Reads the images (index and name) out of the output of
/// `wimlib-imagex info`.
pub fn parse_wim_info(out: &str) -> (r: Vec<(u32, String)>)
    ensures
        image_views(r@) == wim_images(out@),
{
    let oc = chars_of(out);
    let lines = split_on_exec(&oc, '\n');
    let ghost ls = vviews(lines@);
    let index_p = chars_of("Index:");
    let name_p = chars_of("Name:");
    let mut images: Vec<(u32, String)> = Vec::new();
    let mut cur_index: Option<u32> = None;
    let mut cur_name: Option<String> = None;
    assert(ls.subrange(0, 0) =~= Seq::<Seq<char>>::empty());
    for k in 0..lines.len()
        invariant
            ls == vviews(lines@),
            ls == split_on(out@, '\n'),
            index_p@ == "Index:"@,
            name_p@ == "Name:"@,
            wim_fold(ls.subrange(0, k as int)) == (
                image_views(images@),
                cur_index,
                match cur_name {
                    Some(n) => Some(n@),
                    None => None,
                },
            ),
    {
        assert(ls.subrange(0, k + 1).drop_last() =~= ls.subrange(0, k as int));
        assert(ls.subrange(0, k + 1).last() == lines@[k as int]@);
        let line = trim_white_exec(&lines[k]);
        if starts_with_exec(&line, &index_p) {
            let taken = cur_name;
            cur_name = None;
            match (cur_index, taken) {
                (Some(i), Some(n)) => {
                    let ghost before = image_views(images@);
                    images.push((i, n));
                    assert(image_views(images@) =~= before.push((i, n@)));
                },
                _ => {},
            }
            let rest = copy_range(&line, index_p.len(), line.len());
            let value = trim_white_exec(&rest);
            cur_index = parse_u32_exec(&value);
        } else if starts_with_exec(&line, &name_p) {
            let rest = copy_range(&line, name_p.len(), line.len());
            let value = trim_white_exec(&rest);
            cur_name = Some(string_of(&value));
        }
    }
    assert(ls.subrange(0, lines@.len() as int) =~= ls);
    match (cur_index, cur_name) {
        (Some(i), Some(n)) => {
            let ghost before = image_views(images@);
            images.push((i, n));
            assert(image_views(images@) =~= before.push((i, n@)));
        },
        _ => {},
    }
    images
}

/// The index of the first image whose name equals `edition`, ignoring
/// case.
pub open spec fn edition_index(images: Seq<(u32, Seq<char>)>, edition: Seq<char>) -> Option<u32>
    decreases images.len(),
{
    if images.len() == 0 {
        None
    } else if lowercase(images[0].1) == lowercase(edition) {
        Some(images[0].0)
    } else {
        edition_index(images.subrange(1, images.len() as int), edition)
    }
}

/// The image to install: the first image named `edition` (ignoring case)
/// and `true`, or image 1 and `false` when there is none.
pub fn choose_edition(images: &Vec<(u32, String)>, edition: &str) -> (r: (u32, bool))
    ensures
        match edition_index(image_views(images@), edition@) {
            Some(i) => r == (i, true),
            None => r == (1u32, false),
        },
{
    let ghost all = image_views(images@);
    let wanted = to_lower(edition);
    let wc = chars_of(wanted.as_str());
    assert(all.subrange(0, all.len() as int) =~= all);
    for k in 0..images.len()
        invariant
            all == image_views(images@),
            wc@ == lowercase(edition@),
            edition_index(all, edition@) == edition_index(
                all.subrange(k as int, all.len() as int),
                edition@,
            ),
    {
        let ghost rest = all.subrange(k as int, all.len() as int);
        assert(rest[0] == (images@[k as int].0, images@[k as int].1@));
        let ln = to_lower(images[k].1.as_str());
        let lc = chars_of(ln.as_str());
        let same = lc.len() == wc.len() && starts_with_exec(&lc, &wc);
        proof {
            if lc@.len() == wc@.len() {
                assert(lc@.subrange(0, wc@.len() as int) =~= lc@);
            }
        }
        if same {
            return (images[k].0, true);
        }
        assert(rest.subrange(1, rest.len() as int) =~= all.subrange(k + 1, all.len() as int));
    }
    assert(all.subrange(images@.len() as int, all.len() as int) =~= Seq::<(u32, Seq<char>)>::empty());
    (1, false)
}

/// The arguments of `wimlib-imagex` that list the images of `wim`.
pub fn info_args(wim: &str) -> (r: Vec<String>)
    ensures
        views(r@) == seq!["info"@, wim@],
{
    let r: Vec<String> = vec![owned("info"), owned(wim)];
    assert(views(r@) =~= seq!["info"@, wim@]);
    r
}

/// The arguments of `wimlib-imagex` that mount image `index` of `wim`
/// read-write at `mount_point`.
pub fn mount_args(wim: &str, index: u32, mount_point: &str) -> (r: Vec<String>)
    ensures
        views(r@) == seq!["mountrw"@, wim@, decimal(index as nat), mount_point@],
{
    let r: Vec<String> = vec![owned("mountrw"), owned(wim), to_decimal(index as u64), owned(mount_point)];
    assert(views(r@) =~= seq!["mountrw"@, wim@, decimal(index as nat), mount_point@]);
    r
}

/// The arguments of `wimlib-imagex` that commit the changes under
/// `mount_point` and unmount it.
pub fn unmount_args(mount_point: &str) -> (r: Vec<String>)
    ensures
        views(r@) == seq!["unmount"@, mount_point@, "--commit"@],
{
    let r: Vec<String> = vec![owned("unmount"), owned(mount_point), owned("--commit")];
    assert(views(r@) =~= seq!["unmount"@, mount_point@, "--commit"@]);
    r
}

/// The arguments of `sync` that flush the file system holding `stage_dir`.
pub fn sync_args(stage_dir: &str) -> (r: Vec<String>)
    ensures
        views(r@) == seq!["-f"@, stage_dir@],
{
    let r: Vec<String> = vec![owned("-f"), owned(stage_dir)];
    assert(views(r@) =~= seq!["-f"@, stage_dir@]);
    r
}

/// A chosen edition is one of the listed images: its index belongs to an
/// image whose name equals the requested edition, ignoring case, and no
/// earlier image has that name.
pub proof fn law_edition_is_listed(images: Seq<(u32, Seq<char>)>, edition: Seq<char>)
    ensures
        edition_index(images, edition) matches Some(i) ==> exists|k: int|
            0 <= k < images.len() && #[trigger] images[k].0 == i && lowercase(images[k].1)
                == lowercase(edition) && forall|m: int|
                0 <= m < k ==> lowercase(images[m].1) != lowercase(edition),
        edition_index(images, edition) is None ==> forall|k: int|
            0 <= k < images.len() ==> lowercase(#[trigger] images[k].1) != lowercase(edition),
    decreases images.len(),
{
    if images.len() > 0 {
        let rest = images.subrange(1, images.len() as int);
        law_edition_is_listed(rest, edition);
        if lowercase(images[0].1) == lowercase(edition) {
            assert(images[0].0 == images[0].0);
        } else {
            if let Some(i) = edition_index(images, edition) {
                let k = choose|k: int|
                    0 <= k < rest.len() && #[trigger] rest[k].0 == i && lowercase(rest[k].1)
                        == lowercase(edition) && forall|m: int|
                        0 <= m < k ==> lowercase(rest[m].1) != lowercase(edition);
                assert(images[k + 1] == rest[k]);
                assert forall|m: int| 0 <= m < k + 1 implies lowercase(images[m].1) != lowercase(edition) by {
                    if m > 0 {
                        assert(images[m] == rest[m - 1]);
                    }
                }
            } else {
                assert forall|k: int| 0 <= k < images.len() implies lowercase(#[trigger] images[k].1)
                    != lowercase(edition) by {
                    if k > 0 {
                        assert(images[k] == rest[k - 1]);
                    }
                }
            }
        }
    }
}

} // verus!
