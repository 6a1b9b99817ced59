use vstd::prelude::*;

verus! {

/// Metadata describing a favourited station.
#[derive(Debug, Clone)]
pub struct FavoriteStation {
    pub id: String,
    pub name: String,
    pub provider: String,
}

impl FavoriteStation {
    /// A copy of this favourite, field for field.
    pub fn duplicate(&self) -> (r: FavoriteStation)
        ensures
            r == *self,
    {
        FavoriteStation {
            id: self.id.clone(),
            name: self.name.clone(),
            provider: self.provider.clone(),
        }
    }
}

/// Is `f` the favourite of station `id` at `provider`?
pub open spec fn names(f: FavoriteStation, id: Seq<char>, provider: Seq<char>) -> bool {
    f.id@ == id && f.provider@ == provider
}

/// Does `favs` hold a favourite of station `id` at `provider`?
pub open spec fn holds(favs: Seq<FavoriteStation>, id: Seq<char>, provider: Seq<char>) -> bool {
    exists|i: int| 0 <= i < favs.len() && names(#[trigger] favs[i], id, provider)
}

/// `favs` without the favourites of station `id` at `provider`, the others
/// in their order.
pub open spec fn without(favs: Seq<FavoriteStation>, id: Seq<char>, provider: Seq<char>) -> Seq<
    FavoriteStation,
>
    decreases favs.len(),
{
    if favs.len() == 0 {
        favs
    } else if names(favs.last(), id, provider) {
        without(favs.drop_last(), id, provider)
    } else {
        without(favs.drop_last(), id, provider).push(favs.last())
    }
}

/// The favourite stations, in the order they were added.
pub struct FavoritesStore {
    favorites: Vec<FavoriteStation>,
}

impl View for FavoritesStore {
    type V = Seq<FavoriteStation>;

    closed spec fn view(&self) -> Seq<FavoriteStation> {
        self.favorites@
    }
}

proof fn lemma_without_len(favs: Seq<FavoriteStation>, id: Seq<char>, provider: Seq<char>)
    ensures
        without(favs, id, provider).len() <= favs.len(),
        without(favs, id, provider).len() == favs.len() <==> !holds(favs, id, provider),
    decreases favs.len(),
{
    if favs.len() > 0 {
        let init = favs.drop_last();
        lemma_without_len(init, id, provider);
        if holds(init, id, provider) {
            let i = choose|i: int| 0 <= i < init.len() && names(#[trigger] init[i], id, provider);
            assert(favs[i] == init[i]);
        }
        if holds(favs, id, provider) && !names(favs.last(), id, provider) {
            let i = choose|i: int| 0 <= i < favs.len() && names(#[trigger] favs[i], id, provider);
            assert(i < init.len());
            assert(init[i] == favs[i]);
        }
        if names(favs.last(), id, provider) {
            assert(names(favs[favs.len() - 1], id, provider));
        }
    }
}

impl FavoritesStore {
    /// A store holding `favorites`, in their order.
    pub fn new(favorites: Vec<FavoriteStation>) -> (r: FavoritesStore)
        ensures
            r@ == favorites@,
    {
        FavoritesStore { favorites }
    }

    /// All favourite stations.
    pub fn all(&self) -> (r: &[FavoriteStation])
        ensures
            r@ == self@,
    {
        self.favorites.as_slice()
    }

    /// Is the station already a favourite?
    pub fn is_favorite(&self, id: &str, provider: &str) -> (r: bool)
        ensures
            r == holds(self@, id@, provider@),
    {
        let id_s = id.to_owned();
        let provider_s = provider.to_owned();
        let mut i: usize = 0;
        while i < self.favorites.len()
            invariant
                i <= self.favorites@.len(),
                id_s@ == id@,
                provider_s@ == provider@,
                forall|j: int| 0 <= j < i ==> !names(#[trigger] self.favorites@[j], id@, provider@),
            decreases self.favorites@.len() - i,
        {
            let f = &self.favorites[i];
            if f.id == id_s && f.provider == provider_s {
                assert(names(self.favorites@[i as int], id@, provider@));
                return true;
            }
            i = i + 1;
        }
        false
    }

    /// Add a station unless it is already a favourite; returns whether the
    /// list changed.
    pub fn add(&mut self, favorite: FavoriteStation) -> (added: bool)
        ensures
            added == !holds(old(self)@, favorite.id@, favorite.provider@),
            final(self)@ == (if added {
                old(self)@.push(favorite)
            } else {
                old(self)@
            }),
    {
        if !self.is_favorite(favorite.id.as_str(), favorite.provider.as_str()) {
            self.favorites.push(favorite);
            true
        } else {
            false
        }
    }

    /// Remove every favourite of the station, keeping the others in order;
    /// returns whether the list changed.
    pub fn remove(&mut self, id: &str, provider: &str) -> (removed: bool)
        ensures
            final(self)@ == without(old(self)@, id@, provider@),
            removed == holds(old(self)@, id@, provider@),
    {
        let id_s = id.to_owned();
        let provider_s = provider.to_owned();
        let initial_len = self.favorites.len();
        let mut kept: Vec<FavoriteStation> = Vec::new();
        let mut old_favorites: Vec<FavoriteStation> = Vec::new();
        core::mem::swap(&mut self.favorites, &mut old_favorites);
        let ghost src = old_favorites@;
        let mut i: usize = 0;
        while i < old_favorites.len()
            invariant
                src == old_favorites@,
                i <= src.len(),
                id_s@ == id@,
                provider_s@ == provider@,
                kept@ == without(src.take(i as int), id@, provider@),
            decreases src.len() - i,
        {
            let f = &old_favorites[i];
            proof {
                assert(src.take(i as int + 1).drop_last() =~= src.take(i as int));
                assert(src.take(i as int + 1).last() == src[i as int]);
            }
            if !(f.id == id_s && f.provider == provider_s) {
                kept.push(f.duplicate());
            }
            i = i + 1;
        }
        proof {
            assert(src.take(src.len() as int) =~= src);
            lemma_without_len(src, id@, provider@);
        }
        self.favorites = kept;
        self.favorites.len() != initial_len
    }

    /// Add the station when it is not a favourite, else remove it; returns
    /// whether it was added.
    pub fn toggle(&mut self, favorite: FavoriteStation) -> (added: bool)
        ensures
            added == !holds(old(self)@, favorite.id@, favorite.provider@),
            final(self)@ == (if added {
                old(self)@.push(favorite)
            } else {
                without(old(self)@, favorite.id@, favorite.provider@)
            }),
    {
        if self.is_favorite(favorite.id.as_str(), favorite.provider.as_str()) {
            self.remove(favorite.id.as_str(), favorite.provider.as_str());
            false
        } else {
            self.add(favorite);
            true
        }
    }
}

} // verus!
