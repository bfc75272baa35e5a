//! The catalogue of local Whisper models: names, sizes, file names and
//! download addresses, and the unit a size is shown in.
use vstd::prelude::*;

use crate::text::{concat, str_eq};

verus! {

/// A model of the catalogue (its speed and quality factors are display
/// data kept beside it).
pub struct ModelCatalogEntry {
    pub name: &'static str,
    pub description: &'static str,
    pub size_bytes: u64,
}

/// Names of the catalogue, in order.
pub open spec fn catalogue_names() -> Seq<Seq<char>> {
    seq!["tiny"@, "base"@, "small"@, "medium"@, "large"@]
}

/// Sizes of the catalogue, in order.
pub open spec fn catalogue_sizes() -> Seq<u64> {
    seq![75_000_000u64, 142_000_000u64, 466_000_000u64, 1_500_000_000u64, 2_900_000_000u64]
}

/// The catalogue of models, from the smallest to the largest.
pub fn available_models() -> (v: Vec<ModelCatalogEntry>)
    ensures
        v@.len() == 5,
        forall|i: int| 0 <= i < 5 ==> (#[trigger] v@[i]).name@ == catalogue_names()[i] && v@[i].size_bytes
            == catalogue_sizes()[i],
{
    let mut v: Vec<ModelCatalogEntry> = Vec::new();
    v.push(
        ModelCatalogEntry {
            name: "tiny",
            description: "Самая быстрая модель, базовое качество",
            size_bytes: 75_000_000,
        },
    );
    v.push(
        ModelCatalogEntry {
            name: "base",
            description: "Хороший баланс скорости и качества",
            size_bytes: 142_000_000,
        },
    );
    v.push(
        ModelCatalogEntry {
            name: "small",
            description: "Рекомендуется для большинства случаев",
            size_bytes: 466_000_000,
        },
    );
    v.push(
        ModelCatalogEntry {
            name: "medium",
            description: "Очень высокое качество, медленнее",
            size_bytes: 1_500_000_000,
        },
    );
    v.push(
        ModelCatalogEntry {
            name: "large",
            description: "Максимальное качество, очень медленно",
            size_bytes: 2_900_000_000,
        },
    );
    v
}

/// Position of a model in the catalogue, if it is there.
pub fn find_model(name: &str) -> (r: Option<usize>)
    ensures
        match r {
            Some(i) => i < 5 && catalogue_names()[i as int] == name@,
            None => forall|i: int| 0 <= i < 5 ==> catalogue_names()[i] != name@,
        },
{
    let models = available_models();
    let mut i: usize = 0;
    while i < models.len()
        invariant
            models@.len() == 5,
            forall|j: int| 0 <= j < 5 ==> (#[trigger] models@[j]).name@ == catalogue_names()[j],
            i <= 5,
            forall|j: int| 0 <= j < i ==> catalogue_names()[j] != name@,
        decreases 5 - i,
    {
        if str_eq(models[i].name, name) {
            return Some(i);
        }
        i = i + 1;
    }
    None
}

/// File of a model on disk.
pub fn model_file_name(name: &str) -> (f: String)
    ensures
        f@ == "ggml-"@ + name@ + ".bin"@,
{
    let a = concat("ggml-", name);
    concat(a.as_str(), ".bin")
}

/// Where a model is downloaded from.
pub fn model_download_url(name: &str) -> (u: String)
    ensures
        u@ == "https://huggingface.co/ggerganov/whisper.cpp/resolve/main/ggml-"@ + name@ + ".bin"@,
{
    let a = concat("https://huggingface.co/ggerganov/whisper.cpp/resolve/main/ggml-", name);
    concat(a.as_str(), ".bin")
}

/// The unit a size is shown in.
#[derive(Debug, Clone, Copy, PartialEq, Eq, Structural)]
pub enum SizeUnit {
    /// GiB, with one decimal
    Gigabytes,
    /// MiB, without decimals
    Megabytes,
    /// KiB, without decimals
    Kilobytes,
    /// Bytes
    Bytes,
}

/// The largest binary unit that the size reaches.
pub open spec fn spec_size_unit(bytes: u64) -> SizeUnit {
    if bytes >= 1073741824 {
        SizeUnit::Gigabytes
    } else if bytes >= 1048576 {
        SizeUnit::Megabytes
    } else if bytes >= 1024 {
        SizeUnit::Kilobytes
    } else {
        SizeUnit::Bytes
    }
}

/// Picks the unit of a size.
pub fn size_unit(bytes: u64) -> (u: SizeUnit)
    ensures
        u == spec_size_unit(bytes),
{
    if bytes >= 1073741824 {
        SizeUnit::Gigabytes
    } else if bytes >= 1048576 {
        SizeUnit::Megabytes
    } else if bytes >= 1024 {
        SizeUnit::Kilobytes
    } else {
        SizeUnit::Bytes
    }
}

/// The description shown for a model: a downloaded one is marked, with
/// its size on disk when that is known.
pub fn model_description(description: &str, downloaded: bool, size_text: Option<&str>) -> (d: String)
    ensures
        !downloaded ==> d@ == description@,
        downloaded && size_text is None ==> d@ == description@ + " (Скачана)"@,
        downloaded && size_text is Some ==> d@ == description@ + " (Скачана, "@ + size_text->0@
            + " на диске)"@,
{
    if !downloaded {
        return description.to_owned();
    }
    match size_text {
        None => concat(description, " (Скачана)"),
        Some(t) => {
            let a = concat(description, " (Скачана, ");
            let b = concat(a.as_str(), t);
            concat(b.as_str(), " на диске)")
        },
    }
}

} // verus!
