use vstd::prelude::*;

verus! {

/// The primary integration point of a review solution.
#[derive(Eq, PartialEq, Structural, Hash, Clone, Copy, Debug)]
pub enum ReviewSurface {
    Terminal,
    Iterm2,
    Kitty,
    Wezterm,
    Tmux,
    Zellij,
    Zsh,
    Vim,
    Neovim,
    Emacs,
    VsCode,
    Browser,
    Desktop,
}

} // verus!
