//! Render-mode catalogue: names, taglines, equations, notes and subject areas.
use vstd::prelude::*;

verus! {

/// Display metadata of one render mode.
pub struct ModeInfo {
    pub idx: usize,
    pub name: &'static str,
    pub tagline: &'static str,
    pub equations: &'static [&'static str],
    pub notes: &'static str,
}

/// Number of render modes.
pub const MODE_COUNT: usize = 46;

/// Display name of mode `i`.
pub open spec fn spec_mode_name(i: int) -> Seq<char> {
    if i == 0 {
        "3D ISO"@
    } else if i == 1 {
        "BZ SLICE"@
    } else if i == 2 {
        "FERMI"@
    } else if i == 3 {
        "DENSITY"@
    } else if i == 4 {
        "NODAL"@
    } else if i == 5 {
        "PHASE"@
    } else if i == 6 {
        "STRIPES"@
    } else if i == 7 {
        "WARP"@
    } else if i == 8 {
        "NONEUC"@
    } else if i == 9 {
        "MOIRE"@
    } else if i == 10 {
        "WANNIER"@
    } else if i == 11 {
        "MAGNETIC"@
    } else if i == 12 {
        "KIKUCHI"@
    } else if i == 13 {
        "DEFECT"@
    } else if i == 14 {
        "BAND SURFACE"@
    } else if i == 15 {
        "SPIN TEXTURE"@
    } else if i == 16 {
        "CDW"@
    } else if i == 17 {
        "QUASICRYSTAL"@
    } else if i == 18 {
        "THERMAL"@
    } else if i == 19 {
        "DOMAIN WALL"@
    } else if i == 20 {
        "BERRY"@
    } else if i == 21 {
        "STM"@
    } else if i == 22 {
        "VORTEX KNOT"@
    } else if i == 23 {
        "NEMATIC"@
    } else if i == 24 {
        "ABRIKOSOV"@
    } else if i == 25 {
        "WAVEPKT"@
    } else if i == 26 {
        "DIPOLE"@
    } else if i == 27 {
        "KARMAN"@
    } else if i == 28 {
        "LORENZ"@
    } else if i == 29 {
        "LENSING"@
    } else if i == 30 {
        "GRAV WAVE"@
    } else if i == 31 {
        "LATTICE WALK"@
    } else if i == 32 {
        "ELASTIC ANISO"@
    } else if i == 33 {
        "ELASTIC WAVE"@
    } else if i == 34 {
        "STRAIN FIELD"@
    } else if i == 35 {
        "SPIN DENSITY"@
    } else if i == 36 {
        "KURAMOTO"@
    } else if i == 37 {
        "THERMAL DIFFUSE"@
    } else if i == 38 {
        "LAUE CONSTELLATION"@
    } else if i == 39 {
        "BRAGG DIVE"@
    } else if i == 40 {
        "CRYSTAL CASCADE"@
    } else if i == 41 {
        "JULIA LATTICE"@
    } else if i == 42 {
        "NEWTON BASIN"@
    } else if i == 43 {
        "APOLLONIAN"@
    } else if i == 44 {
        "BRAGG KALEIDO"@
    } else {
        "MULTIBROT FIELD"@
    }
}

/// One-line description of mode `i`.
pub open spec fn spec_mode_tagline(i: int) -> Seq<char> {
    if i == 0 {
        "Ray-marched isosurface of the crystal-field scalar."@
    } else if i == 1 {
        "Brillouin-zone slice of f(r) at z = t·speed."@
    } else if i == 2 {
        "Sweeping z-slice as a Fermi-surface scan."@
    } else if i == 3 {
        "Projected charge density ρ ∝ ⟨ψ²⟩."@
    } else if i == 4 {
        "Zero sets of f and f₂ — nodal lines and their crossings."@
    } else if i == 5 {
        "Phase portrait of the complex field ψ = f + i·f₂."@
    } else if i == 6 {
        "Quantised DOS-like stripes via fract(f·N)."@
    } else if i == 7 {
        "Gradient-lensed crystal field."@
    } else if i == 8 {
        "Kleinian circle-inversion kaleidoscope."@
    } else if i == 9 {
        "Twisted-bilayer interference of two crystal fields."@
    } else if i == 10 {
        "Localised Wannier orbital |ψ|² isosurface."@
    } else if i == 11 {
        "Skyrmion-lattice spin texture with oriented streaks."@
    } else if i == 12 {
        "EBSD-style Kikuchi band pattern from G-vectors."@
    } else if i == 13 {
        "Vacancy probe + Friedel oscillations."@
    } else if i == 14 {
        "Two-band energy landscape with avoided crossings."@
    } else if i == 15 {
        "Reciprocal-space spin field with Rashba winding."@
    } else if i == 16 {
        "Charge-density wave with domains, slips, and vortices."@
    } else if i == 17 {
        "Five/tenfold reciprocal interference (Penrose-like)."@
    } else if i == 18 {
        "Debye–Waller blurred lattice peaks + heat haze."@
    } else if i == 19 {
        "Ferroic domains separated by moving phase walls."@
    } else if i == 20 {
        "Berry curvature Ω(k) heatmap from a two-band model."@
    } else if i == 21 {
        "Top-down STM topograph with QPI Friedel rings."@
    } else if i == 22 {
        "Luminous tube around the nodal line of a complex ψ(r)."@
    } else if i == 23 {
        "Liquid-crystal director field with ±½ disclinations."@
    } else if i == 24 {
        "Type-II superconductor vortex lattice (crystal-derived)."@
    } else if i == 25 {
        "Free Gaussian wave packets: spreading, drifting, and interfering."@
    } else if i == 26 {
        "Hertzian dipole radiation: near-field loops + far-field wavefronts with retarded phase."@
    } else if i == 27 {
        "Counter-rotating vortices shed from a bluff body in the Kármán wake regime."@
    } else if i == 28 {
        "Lorenz attractor with per-pixel RK4 + Lyapunov coloring."@
    } else if i == 29 {
        "Schwarzschild black hole — shadow, photon ring, Doppler-beamed accretion disk."@
    } else if i == 30 {
        "Binary-inspiral gravitational waves with interferometer fringes."@
    } else if i == 31 {
        "First-person endless flight through the crystal isosurface tunnel."@
    } else if i == 32 {
        "Directional Young's modulus polar surface derived from crystal G-vectors."@
    } else if i == 33 {
        "Anisotropic acoustic wavefronts from a repeating impulse — qL and qT branches."@
    } else if i == 34 {
        "Crystal under biaxial strain — deformed lattice + piezoelectric polarization charge."@
    } else if i == 35 {
        "Real-space element-resolved magnetic moment map across a 2D supercell."@
    } else if i == 36 {
        "Generative coupled-oscillator field — a crystal-seeded Un-0."@
    } else if i == 37 {
        "One-phonon diffuse halos around the loaded reciprocal lattice."@
    } else if i == 38 {
        "Polychromatic Ewald-shell spots from the loaded reciprocal lattice."@
    } else if i == 39 {
        "Volumetric flight through crystal-seeded morphing octagram cells."@
    } else if i == 40 {
        "Recursive reciprocal-field fractal seeded by the loaded crystal."@
    } else if i == 41 {
        "Crystal-seeded Julia set with luminous reciprocal orbit traps."@
    } else if i == 42 {
        "Crystal-rotated Newton fractal with three to seven competing roots."@
    } else if i == 43 {
        "Recursive circle inversions directed by the crystal's reciprocal star."@
    } else if i == 44 {
        "Inflating kaleidoscopic folds locked to reciprocal-lattice directions."@
    } else {
        "Power-two through power-six escape fractals warped by crystal geometry."@
    }
}

/// Slider and usage notes of mode `i`.
pub open spec fn spec_mode_notes(i: int) -> Seq<char> {
    if i == 0 {
        "Camera orbits, mouse-drag to aim. iso_level shifts the level set; field_mix blends the primary field with the offset twin cf2; w_lattice / w_motif / w_band weight the three sin variants summed into f."@
    } else if i == 1 {
        "A flat 2D cut through the periodic crystal field that scrolls in z. iso_level picks the highlighted contour; color_shift hue-rotates the palette."@
    } else if i == 2 {
        "Same field as BZ SLICE, but z oscillates so you see one full traversal of the lattice's reciprocal slab. iso_level controls which energy surface is highlighted."@
    } else if i == 3 {
        "Quick proxy for |ψ|² integrated along z. Hue cycles with ρ; brightness pow(ρ, 0.4) gives a perceptual rolloff."@
    } else if i == 4 {
        "Highlights where the wavefunction changes sign. Bright yellow at crossings (both fields vanish). Useful intuition for nodal surfaces in band structures."@
    } else if i == 5 {
        "Classic complex-function visualisation. Vortices appear where amp→0 and arg wraps. iso_level / color_shift recolour."@
    } else if i == 6 {
        "Each stripe is an equi-energy contour at evenly-spaced levels — like a quick-and-dirty density of states. iso_level adds more contours."@
    } else if i == 7 {
        "The field bends rays toward its own gradient. field_mix controls the bend strength; w_band sets shimmer. Looks like the lattice through a heat haze."@
    } else if i == 8 {
        "Hyperbolic (non-Euclidean) tiling — circles inverted into themselves. Centres come from the first four G-vectors so different materials give different fundamental groups."@
    } else if i == 9 {
        "Two copies of the lattice, one rotated by θ. Magic-angle moiré patterns and pinwheel ripples appear at small θ. iso_level sharpens contours."@
    } else if i == 10 {
        "A Gaussian envelope localises the inverse-FT into one orbital. field_mix translates the centre; lobes are coloured by sign(Re ψ) — classic chemistry-textbook two-tone."@
    } else if i == 11 {
        "Real-space 3D spin field. Red ↑ → blue ↓ polar dome; streaks aligned with in-plane direction; bright cores at |nz|→1. Type controlled by w_motif/w_lattice ratio."@
    } else if i == 12 {
        "Each G produces two parallel Kikuchi lines (excess/deficiency cone intersections with the detector). Crystal orientation maps onto pattern symmetry. iso_level sharpens."@
    } else if i == 13 {
        "Drag with the mouse — the cursor is a vacancy. Lattice depresses at the core; Friedel rings ring outward at 2k_F. Real, if highly stylised, condensed-matter physics."@
    } else if i == 14 {
        "Two bands with a controlled gap Δ. Saddle points, avoided crossings, and Fermi-level contours all visible. Cool→warm divergent palette around ε=0."@
    } else if i == 15 {
        "Each cell carries a director-dash aligned with the local in-plane spin. ±polarity coloured up/down (warm/cool). field_mix sets the topological winding number."@
    } else if i == 16 {
        "Periodic stripes that lock onto reciprocal-lattice directions, with domain walls, phase slips, and ±1 vortex pairs. iso_level sharpens nodes; field_mix tilts the cross-stripe weight."@
    } else if i == 17 {
        "Non-periodic but quasiperiodic — true tenfold symmetry forbidden in crystals. Inner field shows Penrose-tile edges; outer panel shows the famous decagonal diffraction stars."@
    } else if i == 18 {
        "Increases iso_level → hotter sample → peaks broaden and dim per Debye–Waller, plus a vector noise haze. Cool→warm tint follows T."@
    } else if i == 19 {
        "Two-state order parameter, walls advect across the field. Inside-domain stripes track the local symmetry; bright walls flash on transit. iso_level thickens the walls."@
    } else if i == 20 {
        "Diverging palette (blue/orange) around Ω=0. Dirac points light up where |h|→0; m = field_mix − ½ tunes the topological transition. Streamlines trace the in-plane (h₁,h₂) flow."@
    } else if i == 21 {
        "Five fixed impurities scatter quasiparticles into Friedel-ring QPI patterns. k_F = kscale·(3 + 4·field_mix); iso_level boosts QPI amplitude. Lambertian-shaded height map."@
    } else if i == 22 {
        "Zeros of a complex scalar in 3D form 1D lines — knotted in general. Hue around the tube ← arg(ψ); volumetric halo follows |ψ|²→0. iso_level thickens the tube."@
    } else if i == 23 {
        "Working with 2θ keeps the head–tail symmetry of a director. Cores at |order|→0 light up magenta; sign of the analytic Jacobian distinguishes +½ (warm) vs −½ (cool) defects."@
    } else if i == 24 {
        "Lattice SYMMETRY inherits from the loaded crystal (cubic→square, hex→triangular). iso_level → reduced temperature; field_mix → applied B; w_lattice → CdGM 6-fold-star strength; w_motif → phase-winding rainbow ring; w_band → material-fingerprint modulation."@
    } else if i == 25 {
        "field_mix controls mean momentum |k₀| (slow drift → fast streaks); iso_level sets the initial width σ₀ — narrow packets spread visibly within seconds, the textbook minimum-uncertainty quench. color_shift adds a global phase and rotates k₀'s propagation axis; zoom rescales the visible window in ψ-units. Watch the bright Re(ψ)² fringe comb during the head-on collision (period ≈ 14 s) — those stripes are genuine quantum interference, not a texture; hold the mouse to relocate the launch points and throw packets at each other."@
    } else if i == 26 {
        "field_mix sets the radiation angular frequency ω (controls wavelength on screen). iso_level fades in the near-field 1/r² and 1/r³ terms — at 0 you see clean far-field wavefronts, at 1 the swirling quasi-static loops near the source become visible. Watch the sin²θ donut envelope around r ≈ 2λ and the outgoing spherical phase fronts; the green arrow at origin is the instantaneous dipole moment p(t) = p₀ cos(ωt) ẑ."@
    } else if i == 27 {
        "iso_level sets Reynolds number (60..300) — higher Re yields tighter cores and faster shedding; field_mix grows the initial vortex core radius (low Re → fat fuzzy vortices). speed acts as freestream U∞ (vortex drift rate downstream), zoom rescales the wake. Watch the staggered ±Γ pattern advect off the cylinder, the boundary-layer rim glow on its leading edge, and the streamline ribbons sweep around each core."@
    } else if i == 28 {
        "field_mix sweeps ρ across the Hopf bifurcation (~24.74) — low values give regular spirals, high values give the full butterfly. iso_level controls the RK4 step length (shorter = finer trails, longer = wilder). zoom sets the phase-space window; hold the mouse for a probe spot. Watch the wings: bright regions = high local Lyapunov λ, sensitive to initial conditions; y₀ is perturbed by crystal_field so each loaded crystal stamps its signature onto the chaos."@
    } else if i == 29 {
        "field_mix raises the camera elevation (0 = edge-on disk, 1 = top-down). iso_level controls disk emissivity, color_shift rotates the disk hue, zoom is the camera FOV. Hold the mouse to orbit — sweep horizontally for azimuth, vertically for elevation. Watch the disk near-side pass in front of the black hole while the secondary image arcs over the top of the photon ring; the photon sphere sits at b = (3√3/2) rₛ."@
    } else if i == 30 {
        "A compact binary chirps from wide orbit to merger, sending quadrupole strain rings through a distorted test grid. The cross-shaped Michelson arms turn h+/hx into shifting interference fringes. field_mix raises chirp frequency, iso_level increases strain amplitude and ring sharpness, color_shift rotates the polarization basis, and zoom sets the detector window."@
    } else if i == 31 {
        "The camera flies forward through the periodic crystal field, which repeats infinitely — same tunnel geometry, endlessly. iso_level opens/closes the tunnel bore (low = wide corridors, high = tight tubes). field_mix blends between the two field twins for tunnel topology variety. zoom is FOV (higher = telephoto, narrower). Mouse steers the gaze direction while the camera still flies straight."@
    } else if i == 32 {
        "Each loaded crystal produces a distinct anisotropy shape: cubic → near-sphere with cubic-symmetric lobes; hexagonal → prolate/oblate blob. Mouse orbits. field_mix scales the surface amplitude; iso_level highlights the isotropic contour (Zener A = 1 ring). kscale modulates velocity range."@
    } else if i == 33 {
        "Warm rings = quasi-longitudinal (qL); cool rings = quasi-transverse (qT, toggled by field_mix). Crystal anisotropy deforms the circular wavefront into a crinkled shape; high |∂v/∂θ| directions produce bright caustic cusps (phonon focusing). The inner inset diagram shows the slowness surface (1/v vs θ). iso_level tints sector directions; kscale stiffens both branches."@
    } else if i == 34 {
        "Left panel shows the unstrained reference crystal field; right shows the deformed version. The interface glows with the piezoelectric polarization charge density (div P). Strain cycles sinusoidally unless field_mix is raised to lock it at maximum. iso_level sets the strain amplitude. A gauge bar at the bottom tracks the instantaneous strain."@
    } else if i == 35 {
        "Red blobs = spin-up moments; blue = spin-down; dark = nonmagnetic sites. field_mix crossfades between ferromagnetic (all red), antiferromagnetic (checkerboard), and ferrimagnetic (alternating magnitudes). iso_level scales the moment magnitude. Mouse pans the supercell. Sublattice assignment uses the parity of the lattice site index so every loaded crystal has a natural two-sublattice decomposition."@
    } else if i == 36 {
        "A population of Kuramoto oscillators is released from a random seed blended with the crystal's reciprocal-lattice data, biased toward a class, and integrated by Euler to a snapshot time T — Unconventional AI's Un-0 image model — yielding the synchronisation order parameter r·e^{iψ}. The readout then treats every pixel as an oscillator entrained by that mean field (Adler equation, solved closed-form): its initial phase is the argument of the complex crystal field ψ_c = cf₀ + i·cf₁, whose zeros are genuine phase vortices. Pixels whose crystal detuning ω(x) is small vs the drive K·r lock to the class-warped mean phase; the rest keep drifting — locked and drifting regions coexisting is a chimera state. The look borrows three sibling modes: PHASE (cyclic domain colour + bright vortex cores), SPIN TEXTURE (oriented oscillator 'hands' — the metronome arms, golden when locked), and NEMATIC (magenta defect-core glow). coupling = K, class_bias = Kc, class picks the template (6 classes), crys_init weights the crystalline structure, hands/cores tune the glyph and defect overlays, seed re-rolls the generation. Each 6 s cycle re-seeds and replays order emerging from chaos. Hold the mouse to pick the class by cursor-x."@
    } else if i == 37 {
        "A crystal-specific reciprocal detector: every halo is anchored to a loaded G-vector. temperature raises the phonon population; soft_mode lowers the branch energy and broadens/brightens its scattering; longitud changes the longitudinal/transverse anisotropy proxy; diffuse and sharpness balance halo against Bragg core. This is a phenomenological one-phonon model, not a substitute for material-specific DFPT eigenvectors."@
    } else if i == 38 {
        "A moving Laue-style diffraction detector. Reciprocal vectors become discrete spots whenever their rotated k_out lands inside the finite energy band. bandwidth admits more Ewald shells; mosaicity controls spot width; spot_gain, streaks, and exposure shape the detector response. Mouse-drag orbits the crystal; every crystal produces its own symmetry constellation."@
    } else if i == 39 {
        "A true emissive-volume dive rather than LATTICE WALK's opaque isosurface. Each repeating cell is an open octagram gate that continuously splits into four petals; a travelling morph wave opens cells ahead of the camera. The first loaded reciprocal vector sets gate orientation and roll, so each crystal produces a distinct tunnel. morph biases the topology cycle, beam_w changes beam thickness, crys_tw scales crystal orientation, glow controls emission, depth extends the sampled corridor, fov changes the camera lens, and mouse-drag looks around."@
    } else if i == 40 {
        "A crystal-specific feedback-free fractal. Each recursion level samples a different stride through the strongest loaded G-vectors, turns the resulting complex field into luminous zero sets and shells, then folds and inflates the domain for the next level. inflation controls self-similar scale, warp bends child levels with their parent field, sharpness tightens filaments, g_star chooses how many reciprocal vectors participate, phase_mix changes cross-level rotation, and depth adds generations. Hold the mouse to relocate the recursion centre. Crystal morph, strain, and heterostructure changes flow through the same G-vector buffer, so they reshape the hierarchy rather than merely recolor it."@
    } else if i == 41 {
        "A classic Julia fractal whose complex seed, orientation, and orbit-trap radius come from the loaded crystal's strongest reciprocal vectors. crys_seed controls material influence, breathe moves between connected and dust-like sets, orbit and glow expose internal filaments, and crys_twist rotates the lattice imprint."@
    } else if i == 42 {
        "Each pixel solves a crystal-rotated complex polynomial. Root count changes the basin symmetry; relax destabilizes or smooths convergence; boundary reveals the infinitely interleaved basin borders; crys_bias and pulse make reciprocal orientation and time reshape the roots."@
    } else if i == 43 {
        "Three reciprocal-vector directions become moving inversion centres, recursively packing luminous circles and seams. inversion changes gasket topology, circles tightens the ring trap, lattice amplifies crystal alignment, fold blends in a mirrored Kleinian-style domain, and drift slowly rotates the packing."@
    } else if i == 44 {
        "A fast polar-fold fractal whose reflections rotate with the loaded reciprocal star. symmetry chooses the mirror order, inflation controls recursive scale, bend lets Bragg waves curve later folds, crys_lock controls material orientation, and beams sharpens the kaleidoscope rays."@
    } else {
        "The Mandelbrot family, made material-specific: reciprocal vectors rotate the complex plane and perturb c, so changing crystal reshapes bulbs and filaments. power selects the Multibrot order; crys_warp controls material influence; orbit exposes nested contour traps; drift moves c; interior illuminates bounded regions."@
    }
}

/// The equations shown for mode `i`, one line each.
pub open spec fn spec_mode_equations(i: int) -> Seq<Seq<char>> {
    if i == 0 {
        seq!["f(r) = Σᵢ aᵢ sin(Gᵢ·r + φᵢ)"@, "surface: f(r) = c"@, "shading: n̂ = −∇f / |∇f|"@]
    } else if i == 1 {
        seq!["p(uv,t) = (3·uv, 0.3 t)"@, "draw  f(p),  zero set  |f|≈0,"@, "and iso line  |f − ½·iso| ≈ 0"@]
    } else if i == 2 {
        seq!["z(t) = 0.8 sin(0.5 t)"@, "draw  iso(f, ½·iso), iso(f₂, −0.4·iso)"@]
    } else if i == 3 {
        seq!["ρ(uv) ≈ (1/N) Σ_z f(uv, z)²"@, "(6 z-samples)"@]
    } else if i == 4 {
        seq!["lines: |f|≈0  ∪  |f₂|≈0"@, "crossings: |f|+|f₂| ≈ 0"@]
    } else if i == 5 {
        seq!["amp = √(f² + f₂²)"@, "arg = atan2(f₂, f)"@, "hue ← arg/2π,   bright ← amp"@]
    } else if i == 6 {
        seq!["N = 6 + 14·iso"@, "stripe = fract(mix(f, f₂)·N)"@, "draw thin lines near stripe = 0"@]
    } else if i == 7 {
        seq!["g(p) = ∇f(p) · 2ε"@, "p_warped = p + field_mix · g"@, "render f(p_warped)"@]
    } else if i == 8 {
        seq!["inv(z; c, r) = c + r²(z−c)/|z−c|²"@, "iterate 52× through 4 G-derived circles"@, "tint each step by f(z), decay e^(−i/20)"@]
    } else if i == 9 {
        seq!["θ = field_mix · 30°"@, "draw  f(p) · f(Rθ p)   (product)"@, "+ contour at  f + f_rot = 0"@]
    } else if i == 10 {
        seq!["ψ(r) = e^(−0.6 r²) Σᵢ aᵢ e^(i Gᵢ·r + iφᵢ)"@, "isosurface: |ψ|² = ½·iso"@, "lobes ← sign of Re ψ"@]
    } else if i == 11 {
        seq!["n̂(r) = (nx, ny, nz)/|n|,"@, "nx = f, ny = f₂, nz = ∂z f"@, "Bloch ↔ Néel: rot by atan2(w_motif, w_lat)"@]
    } else if i == 12 {
        seq!["for each G: pair of lines"@, "    d_par(uv) = ±|G|·k_scale"@, "    smeared by  exp(−d²/w²)"@]
    } else if i == 13 {
        seq!["f(r) = f₀ − A·e^(−r²/σ²)"@, "       + cos(2 k_F r)·e^(−r)/r"@, "k_F = kscale·(3 + 6·field_mix)"@]
    } else if i == 14 {
        seq!["ε±(k) = ½(εₐ+ε_b) ± ½√((εₐ−ε_b)²+Δ²)"@, "Δ = 0.055 + 0.22·field_mix + …"@, "contours every  spacing·iso"@]
    } else if i == 15 {
        seq!["winding n = 1 + ⌊4·field_mix⌋"@, "θ(k) = n·atan2(kᵧ, kₓ) + 0.75 f(k)"@, "draw n̂(k) as oriented dashes"@]
    } else if i == 16 {
        seq!["ρ(r) ∝ Σⱼ cos(kⱼ·r + Φ(r))"@, "Φ = domain ± vortex(r,c,±1)"@, "    + slip lines + Friedel noise"@]
    } else if i == 17 {
        seq!["10 plane waves at angles 2π·i/10"@, "amplitudes alternate 1 and 1/φ"@, "(φ = golden ratio)"@, "diffraction: spots at (k, φk, k/φ)"@]
    } else if i == 18 {
        seq!["I(G) ∝ |F(G)|² · e^(−⟨u²⟩|G|²)"@, "⟨u²⟩ ≈ T · 0.065,  T = iso_level"@, "peak width grows with T"@]
    } else if i == 19 {
        seq!["wall(r,t) = sin(p·k₁+t) + ½ sin(p·k₂−t)"@, "domain = step(wall, 0)"@, "wall mask = smoothstep(0, w, |wall|)"@]
    } else if i == 20 {
        seq!["h(k) = (f, f₂, m + 0.3·f(1.5k))"@, "d̂ = h/|h|,    m = 2·field_mix − 1"@, "Ω(k) = ½ d̂ · (∂ₓd̂ × ∂_y d̂)"@]
    } else if i == 21 {
        seq!["ρ(r) = |ψ|² + Σᵢ cos(2k_F|r−rᵢ|+φᵢ)·e^(−|r−rᵢ|)/|r−rᵢ|"@, "z_tip ∝ ρ^0.6  (constant-current)"@]
    } else if i == 22 {
        seq!["ψ(r) = Σᵢ aᵢ e^(i Gᵢ·r + iφᵢ + i t·i)"@, "nodal set: ψ(r) = 0  (codim 2 in 3D)"@, "SDF: |ψ(r)| − R_tube"@]
    } else if i == 23 {
        seq!["2θ = atan2(f₂, f)"@, "θ ∈ (−π/2, π/2]   (n̂ ≡ −n̂)"@, "defect charge = sign det J"@]
    } else if i == 24 {
        seq!["|ψ|²(r) = 1 − Σ_K f(K) cos(K·r)"@, "a₀ ∝ 1/√B,   ξ ∝ 1/√(1−t)"@, "λ ∝ 1/√(1−t⁴),   t = T/Tc"@, "CdGM star ∝ cos(6·(θ − θ_axis))"@]
    } else if i == 25 {
        seq!["ψ(x,t) = (2π(σ₀² + iℏt/2m))^(−½) · exp[ik₀·(x−x₀) − iℏ|k₀|²t/2m]"@, "          · exp[−(x − x₀ − v_g t)² / (4(σ₀² + iℏt/2m))]"@, "σ(t) = σ₀ √(1 + (ℏt / 2mσ₀²)²)"@, "iℏ ∂ψ/∂t = −(ℏ²/2m) ∇²ψ,    v_g = ℏk₀/m"@]
    } else if i == 26 {
        seq!["E_θ ∝ sinθ · ω²/(c²r) · cos(ω(t−r/c))         (far,  1/r)"@, "      + ω/(cr²) · sin(ω(t−r/c))                (ind., 1/r²)"@, "      − 1/r³ · cos(ω(t−r/c))                   (quasi-stat, 1/r³)"@, "S = (1/μ₀c) · |E|² ∝ sin²θ / r²"@]
    } else if i == 27 {
        seq!["ω(r,t) = Γ / (π r_c²) · exp(−r² / r_c²)"@, "r_c²(t) = r_c0² + 4 ν t     (Lamb–Oseen viscous core growth)"@, "f_s = St · U∞ / D,   St ≈ 0.21    (Strouhal shedding)"@]
    } else if i == 28 {
        seq!["ẋ = σ(y − x)"@, "ẏ = x(ρ − z) − y,    ż = xy − βz"@, "λ = lim (1/T) · ln ‖δ(T)‖ / ‖δ(0)‖"@]
    } else if i == 29 {
        seq!["ds² = −(1 − rₛ/r) c² dt² + (1 − rₛ/r)⁻¹ dr² + r² dΩ²"@, "α(b) = 4GM/(c² b),    b_c = (3√3/2) rₛ"@, "D = 1 / [γ(1 − β·n̂)],    I_obs = D⁴ · √(1 − rₛ/r) · I_em"@]
    } else if i == 30 {
        seq!["h_+(r,t) = A/r * cos(2(phi - theta) - omega r)"@, "h_x(r,t) = A/r * sin(2(phi - theta) - omega r)"@, "ds^2 = -dt^2 + (1+h_+)dx^2 + (1-h_+)dy^2 + 2h_x dxdy"@, "Delta L/L ~= h_+/2"@]
    } else if i == 31 {
        seq!["pos(t) = (A sin(ω₁t), B cos(ω₂t), v t)   (helix path)"@, "surface: |mix(f, f₂, blend)| = iso · 0.3"@, "colour ← hue(f(hit) · 0.45 + color_shift)"@]
    } else if i == 32 {
        seq!["C(n̂) = Σᵢ aᵢ² (n̂·Ĝᵢ)⁴   (4th-rank projection)"@, "surface: r(n̂) = C(n̂) · scale"@, "Zener ring: highlight where C(n̂) ≈ C_iso"@]
    } else if i == 33 {
        seq!["v_L(θ) ∝ √(Σ aᵢ² (n̂·Ĝᵢ)²)"@, "v_T(θ) ∝ √(1 − Σ aᵢ² (n̂·Ĝᵢ)²)"@, "focus ∝ |∂v/∂θ|²   (phonon-focusing caustic)"@]
    } else if i == 34 {
        seq!["ε_xx = ε_yy = ε,  ε_zz = −2ν ε / (1−ν)   (Poisson, ν ≈ 0.28)"@, "r → (r_x(1+ε), r_y(1+ε), r_z(1+ε_zz))"@, "ρ_P ∝ ε · ∇² f(r_strained)"@]
    } else if i == 35 {
        seq!["ρ_s(r) = Σ_i mᵢ · exp(−|r − Rᵢ|² / σ²)"@, "mᵢ = m₀·(1 + δ sin(t))   (spin precession)"@, "ordering: FM ↔ AFM ↔ ferrimagnetic  (field_mix)"@]
    } else if i == 36 {
        seq!["population: θ̇ᵢ = ωᵢ + K·r·sin(ψ − θᵢ) + Kc·sin(τᵢ − θᵢ)"@, "order param: r·e^{iψ} = (1/N) Σⱼ aⱼ e^{iθⱼ}"@, "seed (per pixel): θ_c = arg(cf₀ + i·cf₁)  (crystal field)"@, "lock(x) = smoothstep(|ω(x)| / K·r) · r   (per-pixel coherence)"@, "render: θ = θ_c + lock·Δ(ψ−θ_c);  hue ← θ, cores ← |ψ_c|→0"@]
    } else if i == 37 {
        seq!["I₁(Q) ∝ Σᵥ (nᵥ + ½)·|Q·eᵥ|² / ωᵥ"@, "soft mode: ω(q) ↓  →  diffuse halo ↑"@, "Bragg centres: Q = Gᵢ  (from loaded crystal)"@]
    } else if i == 38 {
        seq!["k_out = k_in + Gᵢ"@, "|k_out| = |k_in|   (Bragg / Ewald condition)"@, "I ∝ |F(Gᵢ)|² · exp[−Δk² / σ_E²]"@]
    } else if i == 39 {
        seq!["cell: p ↦ mod(p, L),    gate = minᵢ sdBox(Rᵢp, bᵢ)"@, "m(z,t) = ½ + ½ sin(ωt − 0.74 z + φ_G)"@, "d = mix(d_octagram, d_petals, smoothstep(m))"@, "I(ray) = Σₛ exp(−κ |d(pₛ)|) · palette(cellₛ)"@]
    } else if i == 40 {
        seq!["ψₙ(x) = Σⱼ |F(Gⱼ)| · exp[i Gⱼ·Tₙ(x) + iφⱼ]"@, "Tₙ₊₁ = R_G ( inflation·|Tₙ| + warp·ψₙ )"@, "I(x) = Σₙ orbit_trap(|ψₙ|) / (1 + 0.28n)"@]
    } else if i == 41 {
        seq!["zₙ₊₁ = zₙ² + c(G₀,G₁,t)"@, "trap = minₙ ||zₙ| − r_G|"@, "color ← escape time + orbit distance"@]
    } else if i == 42 {
        seq!["f(z) = zᴺ − a(G),    N = roots"@, "zₙ₊₁ = zₙ − relax · f(zₙ)/f′(zₙ)"@, "color ← converged root + convergence rate"@]
    } else if i == 43 {
        seq!["q = p − cᵢ(G),    p′ = cᵢ + inversion·q/|q|²"@, "cᵢ ∈ {directions of G₀,G₁,G₀−G₁}"@, "I ← minimum circle and seam orbit traps"@]
    } else if i == 44 {
        seq!["θ′ = |mod(θ + θ_G, 2π/N) − π/N|"@, "pₙ₊₁ = R_G ( inflation·pₙ − offset_G )"@, "I ← polar seams + Σᵢ |F(Gᵢ)| cos(Gᵢ·p)"@]
    } else {
        seq!["zₙ₊₁ = zₙᴾ + c,    P ∈ {2,…,6}"@, "c = R_G(uv) + offset(G₀,G₁,t)"@, "color ← smooth escape + angular stripe + orbit trap"@]
    }
}

/// `m` is the catalogue's entry for mode `i`.
pub open spec fn is_mode_entry(m: ModeInfo, i: int) -> bool {
    &&& m.idx == i
    &&& m.name@ == spec_mode_name(i)
    &&& m.tagline@ == spec_mode_tagline(i)
    &&& m.equations@.len() == spec_mode_equations(i).len()
    &&& forall|k: int|
        0 <= k < m.equations@.len() ==> (#[trigger] m.equations@[k])@ == spec_mode_equations(i)[k]
    &&& m.notes@ == spec_mode_notes(i)
}

/// Metadata of mode `idx`.
pub fn mode_info(idx: usize) -> (r: ModeInfo)
    requires
        idx < MODE_COUNT,
    ensures
        is_mode_entry(r, idx as int),
{
    if idx == 0 {
        ModeInfo {
            idx: 0,
            name: "3D ISO",
            tagline: "Ray-marched isosurface of the crystal-field scalar.",
            equations: &[
                "f(r) = Σᵢ aᵢ sin(Gᵢ·r + φᵢ)",
                "surface: f(r) = c",
                "shading: n̂ = −∇f / |∇f|",
            ],
            notes: "Camera orbits, mouse-drag to aim. iso_level shifts the level set; field_mix blends the primary field with the offset twin cf2; w_lattice / w_motif / w_band weight the three sin variants summed into f.",
        }
    } else if idx == 1 {
        ModeInfo {
            idx: 1,
            name: "BZ SLICE",
            tagline: "Brillouin-zone slice of f(r) at z = t·speed.",
            equations: &[
                "p(uv,t) = (3·uv, 0.3 t)",
                "draw  f(p),  zero set  |f|≈0,",
                "and iso line  |f − ½·iso| ≈ 0",
            ],
            notes: "A flat 2D cut through the periodic crystal field that scrolls in z. iso_level picks the highlighted contour; color_shift hue-rotates the palette.",
        }
    } else if idx == 2 {
        ModeInfo {
            idx: 2,
            name: "FERMI",
            tagline: "Sweeping z-slice as a Fermi-surface scan.",
            equations: &[
                "z(t) = 0.8 sin(0.5 t)",
                "draw  iso(f, ½·iso), iso(f₂, −0.4·iso)",
            ],
            notes: "Same field as BZ SLICE, but z oscillates so you see one full traversal of the lattice's reciprocal slab. iso_level controls which energy surface is highlighted.",
        }
    } else if idx == 3 {
        ModeInfo {
            idx: 3,
            name: "DENSITY",
            tagline: "Projected charge density ρ ∝ ⟨ψ²⟩.",
            equations: &[
                "ρ(uv) ≈ (1/N) Σ_z f(uv, z)²",
                "(6 z-samples)",
            ],
            notes: "Quick proxy for |ψ|² integrated along z. Hue cycles with ρ; brightness pow(ρ, 0.4) gives a perceptual rolloff.",
        }
    } else if idx == 4 {
        ModeInfo {
            idx: 4,
            name: "NODAL",
            tagline: "Zero sets of f and f₂ — nodal lines and their crossings.",
            equations: &[
                "lines: |f|≈0  ∪  |f₂|≈0",
                "crossings: |f|+|f₂| ≈ 0",
            ],
            notes: "Highlights where the wavefunction changes sign. Bright yellow at crossings (both fields vanish). Useful intuition for nodal surfaces in band structures.",
        }
    } else if idx == 5 {
        ModeInfo {
            idx: 5,
            name: "PHASE",
            tagline: "Phase portrait of the complex field ψ = f + i·f₂.",
            equations: &[
                "amp = √(f² + f₂²)",
                "arg = atan2(f₂, f)",
                "hue ← arg/2π,   bright ← amp",
            ],
            notes: "Classic complex-function visualisation. Vortices appear where amp→0 and arg wraps. iso_level / color_shift recolour.",
        }
    } else if idx == 6 {
        ModeInfo {
            idx: 6,
            name: "STRIPES",
            tagline: "Quantised DOS-like stripes via fract(f·N).",
            equations: &[
                "N = 6 + 14·iso",
                "stripe = fract(mix(f, f₂)·N)",
                "draw thin lines near stripe = 0",
            ],
            notes: "Each stripe is an equi-energy contour at evenly-spaced levels — like a quick-and-dirty density of states. iso_level adds more contours.",
        }
    } else if idx == 7 {
        ModeInfo {
            idx: 7,
            name: "WARP",
            tagline: "Gradient-lensed crystal field.",
            equations: &[
                "g(p) = ∇f(p) · 2ε",
                "p_warped = p + field_mix · g",
                "render f(p_warped)",
            ],
            notes: "The field bends rays toward its own gradient. field_mix controls the bend strength; w_band sets shimmer. Looks like the lattice through a heat haze.",
        }
    } else if idx == 8 {
        ModeInfo {
            idx: 8,
            name: "NONEUC",
            tagline: "Kleinian circle-inversion kaleidoscope.",
            equations: &[
                "inv(z; c, r) = c + r²(z−c)/|z−c|²",
                "iterate 52× through 4 G-derived circles",
                "tint each step by f(z), decay e^(−i/20)",
            ],
            notes: "Hyperbolic (non-Euclidean) tiling — circles inverted into themselves. Centres come from the first four G-vectors so different materials give different fundamental groups.",
        }
    } else if idx == 9 {
        ModeInfo {
            idx: 9,
            name: "MOIRE",
            tagline: "Twisted-bilayer interference of two crystal fields.",
            equations: &[
                "θ = field_mix · 30°",
                "draw  f(p) · f(Rθ p)   (product)",
                "+ contour at  f + f_rot = 0",
            ],
            notes: "Two copies of the lattice, one rotated by θ. Magic-angle moiré patterns and pinwheel ripples appear at small θ. iso_level sharpens contours.",
        }
    } else if idx == 10 {
        ModeInfo {
            idx: 10,
            name: "WANNIER",
            tagline: "Localised Wannier orbital |ψ|² isosurface.",
            equations: &[
                "ψ(r) = e^(−0.6 r²) Σᵢ aᵢ e^(i Gᵢ·r + iφᵢ)",
                "isosurface: |ψ|² = ½·iso",
                "lobes ← sign of Re ψ",
            ],
            notes: "A Gaussian envelope localises the inverse-FT into one orbital. field_mix translates the centre; lobes are coloured by sign(Re ψ) — classic chemistry-textbook two-tone.",
        }
    } else if idx == 11 {
        ModeInfo {
            idx: 11,
            name: "MAGNETIC",
            tagline: "Skyrmion-lattice spin texture with oriented streaks.",
            equations: &[
                "n̂(r) = (nx, ny, nz)/|n|,",
                "nx = f, ny = f₂, nz = ∂z f",
                "Bloch ↔ Néel: rot by atan2(w_motif, w_lat)",
            ],
            notes: "Real-space 3D spin field. Red ↑ → blue ↓ polar dome; streaks aligned with in-plane direction; bright cores at |nz|→1. Type controlled by w_motif/w_lattice ratio.",
        }
    } else if idx == 12 {
        ModeInfo {
            idx: 12,
            name: "KIKUCHI",
            tagline: "EBSD-style Kikuchi band pattern from G-vectors.",
            equations: &[
                "for each G: pair of lines",
                "    d_par(uv) = ±|G|·k_scale",
                "    smeared by  exp(−d²/w²)",
            ],
            notes: "Each G produces two parallel Kikuchi lines (excess/deficiency cone intersections with the detector). Crystal orientation maps onto pattern symmetry. iso_level sharpens.",
        }
    } else if idx == 13 {
        ModeInfo {
            idx: 13,
            name: "DEFECT",
            tagline: "Vacancy probe + Friedel oscillations.",
            equations: &[
                "f(r) = f₀ − A·e^(−r²/σ²)",
                "       + cos(2 k_F r)·e^(−r)/r",
                "k_F = kscale·(3 + 6·field_mix)",
            ],
            notes: "Drag with the mouse — the cursor is a vacancy. Lattice depresses at the core; Friedel rings ring outward at 2k_F. Real, if highly stylised, condensed-matter physics.",
        }
    } else if idx == 14 {
        ModeInfo {
            idx: 14,
            name: "BAND SURFACE",
            tagline: "Two-band energy landscape with avoided crossings.",
            equations: &[
                "ε±(k) = ½(εₐ+ε_b) ± ½√((εₐ−ε_b)²+Δ²)",
                "Δ = 0.055 + 0.22·field_mix + …",
                "contours every  spacing·iso",
            ],
            notes: "Two bands with a controlled gap Δ. Saddle points, avoided crossings, and Fermi-level contours all visible. Cool→warm divergent palette around ε=0.",
        }
    } else if idx == 15 {
        ModeInfo {
            idx: 15,
            name: "SPIN TEXTURE",
            tagline: "Reciprocal-space spin field with Rashba winding.",
            equations: &[
                "winding n = 1 + ⌊4·field_mix⌋",
                "θ(k) = n·atan2(kᵧ, kₓ) + 0.75 f(k)",
                "draw n̂(k) as oriented dashes",
            ],
            notes: "Each cell carries a director-dash aligned with the local in-plane spin. ±polarity coloured up/down (warm/cool). field_mix sets the topological winding number.",
        }
    } else if idx == 16 {
        ModeInfo {
            idx: 16,
            name: "CDW",
            tagline: "Charge-density wave with domains, slips, and vortices.",
            equations: &[
                "ρ(r) ∝ Σⱼ cos(kⱼ·r + Φ(r))",
                "Φ = domain ± vortex(r,c,±1)",
                "    + slip lines + Friedel noise",
            ],
            notes: "Periodic stripes that lock onto reciprocal-lattice directions, with domain walls, phase slips, and ±1 vortex pairs. iso_level sharpens nodes; field_mix tilts the cross-stripe weight.",
        }
    } else if idx == 17 {
        ModeInfo {
            idx: 17,
            name: "QUASICRYSTAL",
            tagline: "Five/tenfold reciprocal interference (Penrose-like).",
            equations: &[
                "10 plane waves at angles 2π·i/10",
                "amplitudes alternate 1 and 1/φ",
                "(φ = golden ratio)",
                "diffraction: spots at (k, φk, k/φ)",
            ],
            notes: "Non-periodic but quasiperiodic — true tenfold symmetry forbidden in crystals. Inner field shows Penrose-tile edges; outer panel shows the famous decagonal diffraction stars.",
        }
    } else if idx == 18 {
        ModeInfo {
            idx: 18,
            name: "THERMAL",
            tagline: "Debye–Waller blurred lattice peaks + heat haze.",
            equations: &[
                "I(G) ∝ |F(G)|² · e^(−⟨u²⟩|G|²)",
                "⟨u²⟩ ≈ T · 0.065,  T = iso_level",
                "peak width grows with T",
            ],
            notes: "Increases iso_level → hotter sample → peaks broaden and dim per Debye–Waller, plus a vector noise haze. Cool→warm tint follows T.",
        }
    } else if idx == 19 {
        ModeInfo {
            idx: 19,
            name: "DOMAIN WALL",
            tagline: "Ferroic domains separated by moving phase walls.",
            equations: &[
                "wall(r,t) = sin(p·k₁+t) + ½ sin(p·k₂−t)",
                "domain = step(wall, 0)",
                "wall mask = smoothstep(0, w, |wall|)",
            ],
            notes: "Two-state order parameter, walls advect across the field. Inside-domain stripes track the local symmetry; bright walls flash on transit. iso_level thickens the walls.",
        }
    } else if idx == 20 {
        ModeInfo {
            idx: 20,
            name: "BERRY",
            tagline: "Berry curvature Ω(k) heatmap from a two-band model.",
            equations: &[
                "h(k) = (f, f₂, m + 0.3·f(1.5k))",
                "d̂ = h/|h|,    m = 2·field_mix − 1",
                "Ω(k) = ½ d̂ · (∂ₓd̂ × ∂_y d̂)",
            ],
            notes: "Diverging palette (blue/orange) around Ω=0. Dirac points light up where |h|→0; m = field_mix − ½ tunes the topological transition. Streamlines trace the in-plane (h₁,h₂) flow.",
        }
    } else if idx == 21 {
        ModeInfo {
            idx: 21,
            name: "STM",
            tagline: "Top-down STM topograph with QPI Friedel rings.",
            equations: &[
                "ρ(r) = |ψ|² + Σᵢ cos(2k_F|r−rᵢ|+φᵢ)·e^(−|r−rᵢ|)/|r−rᵢ|",
                "z_tip ∝ ρ^0.6  (constant-current)",
            ],
            notes: "Five fixed impurities scatter quasiparticles into Friedel-ring QPI patterns. k_F = kscale·(3 + 4·field_mix); iso_level boosts QPI amplitude. Lambertian-shaded height map.",
        }
    } else if idx == 22 {
        ModeInfo {
            idx: 22,
            name: "VORTEX KNOT",
            tagline: "Luminous tube around the nodal line of a complex ψ(r).",
            equations: &[
                "ψ(r) = Σᵢ aᵢ e^(i Gᵢ·r + iφᵢ + i t·i)",
                "nodal set: ψ(r) = 0  (codim 2 in 3D)",
                "SDF: |ψ(r)| − R_tube",
            ],
            notes: "Zeros of a complex scalar in 3D form 1D lines — knotted in general. Hue around the tube ← arg(ψ); volumetric halo follows |ψ|²→0. iso_level thickens the tube.",
        }
    } else if idx == 23 {
        ModeInfo {
            idx: 23,
            name: "NEMATIC",
            tagline: "Liquid-crystal director field with ±½ disclinations.",
            equations: &[
                "2θ = atan2(f₂, f)",
                "θ ∈ (−π/2, π/2]   (n̂ ≡ −n̂)",
                "defect charge = sign det J",
            ],
            notes: "Working with 2θ keeps the head–tail symmetry of a director. Cores at |order|→0 light up magenta; sign of the analytic Jacobian distinguishes +½ (warm) vs −½ (cool) defects.",
        }
    } else if idx == 24 {
        ModeInfo {
            idx: 24,
            name: "ABRIKOSOV",
            tagline: "Type-II superconductor vortex lattice (crystal-derived).",
            equations: &[
                "|ψ|²(r) = 1 − Σ_K f(K) cos(K·r)",
                "a₀ ∝ 1/√B,   ξ ∝ 1/√(1−t)",
                "λ ∝ 1/√(1−t⁴),   t = T/Tc",
                "CdGM star ∝ cos(6·(θ − θ_axis))",
            ],
            notes: "Lattice SYMMETRY inherits from the loaded crystal (cubic→square, hex→triangular). iso_level → reduced temperature; field_mix → applied B; w_lattice → CdGM 6-fold-star strength; w_motif → phase-winding rainbow ring; w_band → material-fingerprint modulation.",
        }
    } else if idx == 25 {
        ModeInfo {
            idx: 25,
            name: "WAVEPKT",
            tagline: "Free Gaussian wave packets: spreading, drifting, and interfering.",
            equations: &[
                "ψ(x,t) = (2π(σ₀² + iℏt/2m))^(−½) · exp[ik₀·(x−x₀) − iℏ|k₀|²t/2m]",
                "          · exp[−(x − x₀ − v_g t)² / (4(σ₀² + iℏt/2m))]",
                "σ(t) = σ₀ √(1 + (ℏt / 2mσ₀²)²)",
                "iℏ ∂ψ/∂t = −(ℏ²/2m) ∇²ψ,    v_g = ℏk₀/m",
            ],
            notes: "field_mix controls mean momentum |k₀| (slow drift → fast streaks); iso_level sets the initial width σ₀ — narrow packets spread visibly within seconds, the textbook minimum-uncertainty quench. color_shift adds a global phase and rotates k₀'s propagation axis; zoom rescales the visible window in ψ-units. Watch the bright Re(ψ)² fringe comb during the head-on collision (period ≈ 14 s) — those stripes are genuine quantum interference, not a texture; hold the mouse to relocate the launch points and throw packets at each other.",
        }
    } else if idx == 26 {
        ModeInfo {
            idx: 26,
            name: "DIPOLE",
            tagline: "Hertzian dipole radiation: near-field loops + far-field wavefronts with retarded phase.",
            equations: &[
                "E_θ ∝ sinθ · ω²/(c²r) · cos(ω(t−r/c))         (far,  1/r)",
                "      + ω/(cr²) · sin(ω(t−r/c))                (ind., 1/r²)",
                "      − 1/r³ · cos(ω(t−r/c))                   (quasi-stat, 1/r³)",
                "S = (1/μ₀c) · |E|² ∝ sin²θ / r²",
            ],
            notes: "field_mix sets the radiation angular frequency ω (controls wavelength on screen). iso_level fades in the near-field 1/r² and 1/r³ terms — at 0 you see clean far-field wavefronts, at 1 the swirling quasi-static loops near the source become visible. Watch the sin²θ donut envelope around r ≈ 2λ and the outgoing spherical phase fronts; the green arrow at origin is the instantaneous dipole moment p(t) = p₀ cos(ωt) ẑ.",
        }
    } else if idx == 27 {
        ModeInfo {
            idx: 27,
            name: "KARMAN",
            tagline: "Counter-rotating vortices shed from a bluff body in the Kármán wake regime.",
            equations: &[
                "ω(r,t) = Γ / (π r_c²) · exp(−r² / r_c²)",
                "r_c²(t) = r_c0² + 4 ν t     (Lamb–Oseen viscous core growth)",
                "f_s = St · U∞ / D,   St ≈ 0.21    (Strouhal shedding)",
            ],
            notes: "iso_level sets Reynolds number (60..300) — higher Re yields tighter cores and faster shedding; field_mix grows the initial vortex core radius (low Re → fat fuzzy vortices). speed acts as freestream U∞ (vortex drift rate downstream), zoom rescales the wake. Watch the staggered ±Γ pattern advect off the cylinder, the boundary-layer rim glow on its leading edge, and the streamline ribbons sweep around each core.",
        }
    } else if idx == 28 {
        ModeInfo {
            idx: 28,
            name: "LORENZ",
            tagline: "Lorenz attractor with per-pixel RK4 + Lyapunov coloring.",
            equations: &[
                "ẋ = σ(y − x)",
                "ẏ = x(ρ − z) − y,    ż = xy − βz",
                "λ = lim (1/T) · ln ‖δ(T)‖ / ‖δ(0)‖",
            ],
            notes: "field_mix sweeps ρ across the Hopf bifurcation (~24.74) — low values give regular spirals, high values give the full butterfly. iso_level controls the RK4 step length (shorter = finer trails, longer = wilder). zoom sets the phase-space window; hold the mouse for a probe spot. Watch the wings: bright regions = high local Lyapunov λ, sensitive to initial conditions; y₀ is perturbed by crystal_field so each loaded crystal stamps its signature onto the chaos.",
        }
    } else if idx == 29 {
        ModeInfo {
            idx: 29,
            name: "LENSING",
            tagline: "Schwarzschild black hole — shadow, photon ring, Doppler-beamed accretion disk.",
            equations: &[
                "ds² = −(1 − rₛ/r) c² dt² + (1 − rₛ/r)⁻¹ dr² + r² dΩ²",
                "α(b) = 4GM/(c² b),    b_c = (3√3/2) rₛ",
                "D = 1 / [γ(1 − β·n̂)],    I_obs = D⁴ · √(1 − rₛ/r) · I_em",
            ],
            notes: "field_mix raises the camera elevation (0 = edge-on disk, 1 = top-down). iso_level controls disk emissivity, color_shift rotates the disk hue, zoom is the camera FOV. Hold the mouse to orbit — sweep horizontally for azimuth, vertically for elevation. Watch the disk near-side pass in front of the black hole while the secondary image arcs over the top of the photon ring; the photon sphere sits at b = (3√3/2) rₛ.",
        }
    } else if idx == 30 {
        ModeInfo {
            idx: 30,
            name: "GRAV WAVE",
            tagline: "Binary-inspiral gravitational waves with interferometer fringes.",
            equations: &[
                "h_+(r,t) = A/r * cos(2(phi - theta) - omega r)",
                "h_x(r,t) = A/r * sin(2(phi - theta) - omega r)",
                "ds^2 = -dt^2 + (1+h_+)dx^2 + (1-h_+)dy^2 + 2h_x dxdy",
                "Delta L/L ~= h_+/2",
            ],
            notes: "A compact binary chirps from wide orbit to merger, sending quadrupole strain rings through a distorted test grid. The cross-shaped Michelson arms turn h+/hx into shifting interference fringes. field_mix raises chirp frequency, iso_level increases strain amplitude and ring sharpness, color_shift rotates the polarization basis, and zoom sets the detector window.",
        }
    } else if idx == 31 {
        ModeInfo {
            idx: 31,
            name: "LATTICE WALK",
            tagline: "First-person endless flight through the crystal isosurface tunnel.",
            equations: &[
                "pos(t) = (A sin(ω₁t), B cos(ω₂t), v t)   (helix path)",
                "surface: |mix(f, f₂, blend)| = iso · 0.3",
                "colour ← hue(f(hit) · 0.45 + color_shift)",
            ],
            notes: "The camera flies forward through the periodic crystal field, which repeats infinitely — same tunnel geometry, endlessly. iso_level opens/closes the tunnel bore (low = wide corridors, high = tight tubes). field_mix blends between the two field twins for tunnel topology variety. zoom is FOV (higher = telephoto, narrower). Mouse steers the gaze direction while the camera still flies straight.",
        }
    } else if idx == 32 {
        ModeInfo {
            idx: 32,
            name: "ELASTIC ANISO",
            tagline: "Directional Young's modulus polar surface derived from crystal G-vectors.",
            equations: &[
                "C(n̂) = Σᵢ aᵢ² (n̂·Ĝᵢ)⁴   (4th-rank projection)",
                "surface: r(n̂) = C(n̂) · scale",
                "Zener ring: highlight where C(n̂) ≈ C_iso",
            ],
            notes: "Each loaded crystal produces a distinct anisotropy shape: cubic → near-sphere with cubic-symmetric lobes; hexagonal → prolate/oblate blob. Mouse orbits. field_mix scales the surface amplitude; iso_level highlights the isotropic contour (Zener A = 1 ring). kscale modulates velocity range.",
        }
    } else if idx == 33 {
        ModeInfo {
            idx: 33,
            name: "ELASTIC WAVE",
            tagline: "Anisotropic acoustic wavefronts from a repeating impulse — qL and qT branches.",
            equations: &[
                "v_L(θ) ∝ √(Σ aᵢ² (n̂·Ĝᵢ)²)",
                "v_T(θ) ∝ √(1 − Σ aᵢ² (n̂·Ĝᵢ)²)",
                "focus ∝ |∂v/∂θ|²   (phonon-focusing caustic)",
            ],
            notes: "Warm rings = quasi-longitudinal (qL); cool rings = quasi-transverse (qT, toggled by field_mix). Crystal anisotropy deforms the circular wavefront into a crinkled shape; high |∂v/∂θ| directions produce bright caustic cusps (phonon focusing). The inner inset diagram shows the slowness surface (1/v vs θ). iso_level tints sector directions; kscale stiffens both branches.",
        }
    } else if idx == 34 {
        ModeInfo {
            idx: 34,
            name: "STRAIN FIELD",
            tagline: "Crystal under biaxial strain — deformed lattice + piezoelectric polarization charge.",
            equations: &[
                "ε_xx = ε_yy = ε,  ε_zz = −2ν ε / (1−ν)   (Poisson, ν ≈ 0.28)",
                "r → (r_x(1+ε), r_y(1+ε), r_z(1+ε_zz))",
                "ρ_P ∝ ε · ∇² f(r_strained)",
            ],
            notes: "Left panel shows the unstrained reference crystal field; right shows the deformed version. The interface glows with the piezoelectric polarization charge density (div P). Strain cycles sinusoidally unless field_mix is raised to lock it at maximum. iso_level sets the strain amplitude. A gauge bar at the bottom tracks the instantaneous strain.",
        }
    } else if idx == 35 {
        ModeInfo {
            idx: 35,
            name: "SPIN DENSITY",
            tagline: "Real-space element-resolved magnetic moment map across a 2D supercell.",
            equations: &[
                "ρ_s(r) = Σ_i mᵢ · exp(−|r − Rᵢ|² / σ²)",
                "mᵢ = m₀·(1 + δ sin(t))   (spin precession)",
                "ordering: FM ↔ AFM ↔ ferrimagnetic  (field_mix)",
            ],
            notes: "Red blobs = spin-up moments; blue = spin-down; dark = nonmagnetic sites. field_mix crossfades between ferromagnetic (all red), antiferromagnetic (checkerboard), and ferrimagnetic (alternating magnitudes). iso_level scales the moment magnitude. Mouse pans the supercell. Sublattice assignment uses the parity of the lattice site index so every loaded crystal has a natural two-sublattice decomposition.",
        }
    } else if idx == 36 {
        ModeInfo {
            idx: 36,
            name: "KURAMOTO",
            tagline: "Generative coupled-oscillator field — a crystal-seeded Un-0.",
            equations: &[
                "population: θ̇ᵢ = ωᵢ + K·r·sin(ψ − θᵢ) + Kc·sin(τᵢ − θᵢ)",
                "order param: r·e^{iψ} = (1/N) Σⱼ aⱼ e^{iθⱼ}",
                "seed (per pixel): θ_c = arg(cf₀ + i·cf₁)  (crystal field)",
                "lock(x) = smoothstep(|ω(x)| / K·r) · r   (per-pixel coherence)",
                "render: θ = θ_c + lock·Δ(ψ−θ_c);  hue ← θ, cores ← |ψ_c|→0",
            ],
            notes: "A population of Kuramoto oscillators is released from a random seed blended with the crystal's reciprocal-lattice data, biased toward a class, and integrated by Euler to a snapshot time T — Unconventional AI's Un-0 image model — yielding the synchronisation order parameter r·e^{iψ}. The readout then treats every pixel as an oscillator entrained by that mean field (Adler equation, solved closed-form): its initial phase is the argument of the complex crystal field ψ_c = cf₀ + i·cf₁, whose zeros are genuine phase vortices. Pixels whose crystal detuning ω(x) is small vs the drive K·r lock to the class-warped mean phase; the rest keep drifting — locked and drifting regions coexisting is a chimera state. The look borrows three sibling modes: PHASE (cyclic domain colour + bright vortex cores), SPIN TEXTURE (oriented oscillator 'hands' — the metronome arms, golden when locked), and NEMATIC (magenta defect-core glow). coupling = K, class_bias = Kc, class picks the template (6 classes), crys_init weights the crystalline structure, hands/cores tune the glyph and defect overlays, seed re-rolls the generation. Each 6 s cycle re-seeds and replays order emerging from chaos. Hold the mouse to pick the class by cursor-x.",
        }
    } else if idx == 37 {
        ModeInfo {
            idx: 37,
            name: "THERMAL DIFFUSE",
            tagline: "One-phonon diffuse halos around the loaded reciprocal lattice.",
            equations: &[
                "I₁(Q) ∝ Σᵥ (nᵥ + ½)·|Q·eᵥ|² / ωᵥ",
                "soft mode: ω(q) ↓  →  diffuse halo ↑",
                "Bragg centres: Q = Gᵢ  (from loaded crystal)",
            ],
            notes: "A crystal-specific reciprocal detector: every halo is anchored to a loaded G-vector. temperature raises the phonon population; soft_mode lowers the branch energy and broadens/brightens its scattering; longitud changes the longitudinal/transverse anisotropy proxy; diffuse and sharpness balance halo against Bragg core. This is a phenomenological one-phonon model, not a substitute for material-specific DFPT eigenvectors.",
        }
    } else if idx == 38 {
        ModeInfo {
            idx: 38,
            name: "LAUE CONSTELLATION",
            tagline: "Polychromatic Ewald-shell spots from the loaded reciprocal lattice.",
            equations: &[
                "k_out = k_in + Gᵢ",
                "|k_out| = |k_in|   (Bragg / Ewald condition)",
                "I ∝ |F(Gᵢ)|² · exp[−Δk² / σ_E²]",
            ],
            notes: "A moving Laue-style diffraction detector. Reciprocal vectors become discrete spots whenever their rotated k_out lands inside the finite energy band. bandwidth admits more Ewald shells; mosaicity controls spot width; spot_gain, streaks, and exposure shape the detector response. Mouse-drag orbits the crystal; every crystal produces its own symmetry constellation.",
        }
    } else if idx == 39 {
        ModeInfo {
            idx: 39,
            name: "BRAGG DIVE",
            tagline: "Volumetric flight through crystal-seeded morphing octagram cells.",
            equations: &[
                "cell: p ↦ mod(p, L),    gate = minᵢ sdBox(Rᵢp, bᵢ)",
                "m(z,t) = ½ + ½ sin(ωt − 0.74 z + φ_G)",
                "d = mix(d_octagram, d_petals, smoothstep(m))",
                "I(ray) = Σₛ exp(−κ |d(pₛ)|) · palette(cellₛ)",
            ],
            notes: "A true emissive-volume dive rather than LATTICE WALK's opaque isosurface. Each repeating cell is an open octagram gate that continuously splits into four petals; a travelling morph wave opens cells ahead of the camera. The first loaded reciprocal vector sets gate orientation and roll, so each crystal produces a distinct tunnel. morph biases the topology cycle, beam_w changes beam thickness, crys_tw scales crystal orientation, glow controls emission, depth extends the sampled corridor, fov changes the camera lens, and mouse-drag looks around.",
        }
    } else if idx == 40 {
        ModeInfo {
            idx: 40,
            name: "CRYSTAL CASCADE",
            tagline: "Recursive reciprocal-field fractal seeded by the loaded crystal.",
            equations: &[
                "ψₙ(x) = Σⱼ |F(Gⱼ)| · exp[i Gⱼ·Tₙ(x) + iφⱼ]",
                "Tₙ₊₁ = R_G ( inflation·|Tₙ| + warp·ψₙ )",
                "I(x) = Σₙ orbit_trap(|ψₙ|) / (1 + 0.28n)",
            ],
            notes: "A crystal-specific feedback-free fractal. Each recursion level samples a different stride through the strongest loaded G-vectors, turns the resulting complex field into luminous zero sets and shells, then folds and inflates the domain for the next level. inflation controls self-similar scale, warp bends child levels with their parent field, sharpness tightens filaments, g_star chooses how many reciprocal vectors participate, phase_mix changes cross-level rotation, and depth adds generations. Hold the mouse to relocate the recursion centre. Crystal morph, strain, and heterostructure changes flow through the same G-vector buffer, so they reshape the hierarchy rather than merely recolor it.",
        }
    } else if idx == 41 {
        ModeInfo {
            idx: 41,
            name: "JULIA LATTICE",
            tagline: "Crystal-seeded Julia set with luminous reciprocal orbit traps.",
            equations: &[
                "zₙ₊₁ = zₙ² + c(G₀,G₁,t)",
                "trap = minₙ ||zₙ| − r_G|",
                "color ← escape time + orbit distance",
            ],
            notes: "A classic Julia fractal whose complex seed, orientation, and orbit-trap radius come from the loaded crystal's strongest reciprocal vectors. crys_seed controls material influence, breathe moves between connected and dust-like sets, orbit and glow expose internal filaments, and crys_twist rotates the lattice imprint.",
        }
    } else if idx == 42 {
        ModeInfo {
            idx: 42,
            name: "NEWTON BASIN",
            tagline: "Crystal-rotated Newton fractal with three to seven competing roots.",
            equations: &[
                "f(z) = zᴺ − a(G),    N = roots",
                "zₙ₊₁ = zₙ − relax · f(zₙ)/f′(zₙ)",
                "color ← converged root + convergence rate",
            ],
            notes: "Each pixel solves a crystal-rotated complex polynomial. Root count changes the basin symmetry; relax destabilizes or smooths convergence; boundary reveals the infinitely interleaved basin borders; crys_bias and pulse make reciprocal orientation and time reshape the roots.",
        }
    } else if idx == 43 {
        ModeInfo {
            idx: 43,
            name: "APOLLONIAN",
            tagline: "Recursive circle inversions directed by the crystal's reciprocal star.",
            equations: &[
                "q = p − cᵢ(G),    p′ = cᵢ + inversion·q/|q|²",
                "cᵢ ∈ {directions of G₀,G₁,G₀−G₁}",
                "I ← minimum circle and seam orbit traps",
            ],
            notes: "Three reciprocal-vector directions become moving inversion centres, recursively packing luminous circles and seams. inversion changes gasket topology, circles tightens the ring trap, lattice amplifies crystal alignment, fold blends in a mirrored Kleinian-style domain, and drift slowly rotates the packing.",
        }
    } else if idx == 44 {
        ModeInfo {
            idx: 44,
            name: "BRAGG KALEIDO",
            tagline: "Inflating kaleidoscopic folds locked to reciprocal-lattice directions.",
            equations: &[
                "θ′ = |mod(θ + θ_G, 2π/N) − π/N|",
                "pₙ₊₁ = R_G ( inflation·pₙ − offset_G )",
                "I ← polar seams + Σᵢ |F(Gᵢ)| cos(Gᵢ·p)",
            ],
            notes: "A fast polar-fold fractal whose reflections rotate with the loaded reciprocal star. symmetry chooses the mirror order, inflation controls recursive scale, bend lets Bragg waves curve later folds, crys_lock controls material orientation, and beams sharpens the kaleidoscope rays.",
        }
    } else {
        ModeInfo {
            idx: 45,
            name: "MULTIBROT FIELD",
            tagline: "Power-two through power-six escape fractals warped by crystal geometry.",
            equations: &[
                "zₙ₊₁ = zₙᴾ + c,    P ∈ {2,…,6}",
                "c = R_G(uv) + offset(G₀,G₁,t)",
                "color ← smooth escape + angular stripe + orbit trap",
            ],
            notes: "The Mandelbrot family, made material-specific: reciprocal vectors rotate the complex plane and perturb c, so changing crystal reshapes bulbs and filaments. power selects the Multibrot order; crys_warp controls material influence; orbit exposes nested contour traps; drift moves c; interior illuminates bounded regions.",
        }
    }
}

/// Every mode's metadata, in index order.
pub fn modes() -> (r: Vec<ModeInfo>)
    ensures
        r.len() == MODE_COUNT,
        forall|i: int| 0 <= i < MODE_COUNT ==> is_mode_entry(#[trigger] r[i], i),
{
    let mut v: Vec<ModeInfo> = Vec::new();
    let mut i: usize = 0;
    while i < MODE_COUNT
        invariant
            i <= MODE_COUNT,
            v.len() == i,
            forall|j: int| 0 <= j < i ==> is_mode_entry(#[trigger] v[j], j),
        decreases MODE_COUNT - i,
    {
        v.push(mode_info(i));
        i = i + 1;
    }
    v
}

/// Every mode's display name, in index order.
pub fn mode_names() -> (r: Vec<&'static str>)
    ensures
        r.len() == MODE_COUNT,
        forall|i: int| 0 <= i < MODE_COUNT ==> (#[trigger] r[i])@ == spec_mode_name(i),
{
    let mut v: Vec<&'static str> = Vec::new();
    let mut i: usize = 0;
    while i < MODE_COUNT
        invariant
            i <= MODE_COUNT,
            v.len() == i,
            forall|j: int| 0 <= j < i ==> (#[trigger] v[j])@ == spec_mode_name(j),
        decreases MODE_COUNT - i,
    {
        v.push(mode_info(i).name);
        i = i + 1;
    }
    v
}

/// Subject area grouping the modes in the UI.
#[derive(Clone, Copy, Debug, Eq, PartialEq, Structural)]
pub enum ModeArea {
    Crystal,
    Reciprocal,
    Electronic,
    Materials,
    Classical,
    Fields,
    Fractal,
}

impl ModeArea {
    pub open spec fn spec_label(self) -> Seq<char> {
        match self {
            ModeArea::Crystal => "Crystal"@,
            ModeArea::Reciprocal => "Reciprocal"@,
            ModeArea::Electronic => "Electronic"@,
            ModeArea::Materials => "Materials"@,
            ModeArea::Classical => "Classical"@,
            ModeArea::Fields => "Fields"@,
            ModeArea::Fractal => "Fractal"@,
        }
    }

    pub open spec fn spec_title(self) -> Seq<char> {
        match self {
            ModeArea::Crystal => "Crystal Fields"@,
            ModeArea::Reciprocal => "Reciprocal & Diffraction"@,
            ModeArea::Electronic => "Electronic & Topological"@,
            ModeArea::Materials => "Materials & Order"@,
            ModeArea::Classical => "Classical Continuum"@,
            ModeArea::Fields => "Fields & Relativity"@,
            ModeArea::Fractal => "Crystal Fractals"@,
        }
    }

    /// All areas in UI order.
    pub fn all() -> (r: [ModeArea; 7])
        ensures
            r@ == seq![
                ModeArea::Crystal,
                ModeArea::Reciprocal,
                ModeArea::Electronic,
                ModeArea::Materials,
                ModeArea::Classical,
                ModeArea::Fields,
                ModeArea::Fractal
            ],
    {
        let r = [
            ModeArea::Crystal,
            ModeArea::Reciprocal,
            ModeArea::Electronic,
            ModeArea::Materials,
            ModeArea::Classical,
            ModeArea::Fields,
            ModeArea::Fractal,
        ];
        assert(r@ =~= seq![
            ModeArea::Crystal,
            ModeArea::Reciprocal,
            ModeArea::Electronic,
            ModeArea::Materials,
            ModeArea::Classical,
            ModeArea::Fields,
            ModeArea::Fractal
        ]);
        r
    }

    /// Short tab label.
    pub fn label(self) -> (r: &'static str)
        ensures
            r@ == self.spec_label(),
    {
        match self {
            ModeArea::Crystal => "Crystal",
            ModeArea::Reciprocal => "Reciprocal",
            ModeArea::Electronic => "Electronic",
            ModeArea::Materials => "Materials",
            ModeArea::Classical => "Classical",
            ModeArea::Fields => "Fields",
            ModeArea::Fractal => "Fractal",
        }
    }

    /// Section heading.
    pub fn title(self) -> (r: &'static str)
        ensures
            r@ == self.spec_title(),
    {
        match self {
            ModeArea::Crystal => "Crystal Fields",
            ModeArea::Reciprocal => "Reciprocal & Diffraction",
            ModeArea::Electronic => "Electronic & Topological",
            ModeArea::Materials => "Materials & Order",
            ModeArea::Classical => "Classical Continuum",
            ModeArea::Fields => "Fields & Relativity",
            ModeArea::Fractal => "Crystal Fractals",
        }
    }
}

/// Subject area of mode `idx` (unknown indices group with Crystal).
pub open spec fn spec_area_of(idx: int) -> ModeArea {
    if (0 <= idx <= 9) || idx == 17 || idx == 31 || idx == 39 {
        ModeArea::Crystal
    } else if idx == 12 || idx == 37 || idx == 38 {
        ModeArea::Reciprocal
    } else if idx == 10 || idx == 14 || idx == 15 || idx == 20 || idx == 21 || idx == 22 || idx == 24
        || idx == 25 {
        ModeArea::Electronic
    } else if idx == 11 || idx == 13 || idx == 16 || idx == 18 || idx == 19 || idx == 23 || idx == 32
        || idx == 33 || idx == 34 || idx == 35 {
        ModeArea::Materials
    } else if idx == 27 || idx == 28 || idx == 36 {
        ModeArea::Classical
    } else if idx == 26 || idx == 29 || idx == 30 {
        ModeArea::Fields
    } else if 40 <= idx <= 45 {
        ModeArea::Fractal
    } else {
        ModeArea::Crystal
    }
}

impl ModeInfo {
    /// The subject area this mode is filed under.
    pub fn area(&self) -> (r: ModeArea)
        ensures
            r == spec_area_of(self.idx as int),
    {
        match self.idx {
            0..=9 | 17 | 31 | 39 => ModeArea::Crystal,
            12 | 37 | 38 => ModeArea::Reciprocal,
            10 | 14 | 15 | 20 | 21 | 22 | 24 | 25 => ModeArea::Electronic,
            11 | 13 | 16 | 18 | 19 | 23 | 32 | 33 | 34 | 35 => ModeArea::Materials,
            27 | 28 | 36 => ModeArea::Classical,
            26 | 29 | 30 => ModeArea::Fields,
            40..=45 => ModeArea::Fractal,
            _ => ModeArea::Crystal,
        }
    }
}

} // verus!
